//! Which globals of the compositor are bound, and what a start needs of them.

use vstd::prelude::*;

verus! {

/// A global of the compositor that is used.
#[derive(Clone, Copy, Debug, PartialEq, Eq, Structural)]
pub enum GlobalKind {
    Compositor,
    LayerShell,
    Dmabuf,
    Viewporter,
    FractionalScaleManager,
    Output,
    Seat,
}

/// How a global is bound.
#[derive(Clone, Copy, Debug, PartialEq, Eq, Structural)]
pub struct GlobalBinding {
    pub kind: GlobalKind,
    pub version: u32,
    /// The global tells which device and formats the compositor takes.
    pub feedback: bool,
}

/// Why a start is not possible.
#[derive(Clone, Copy, Debug, PartialEq, Eq, Structural)]
pub enum StartupError {
    NoCompositor,
    NoLayerShell,
    NoOutput,
}

/// What follows when a global appears while running.
#[derive(Clone, Copy, Debug, PartialEq, Eq, Structural)]
pub enum HotPlug {
    /// Bind the output at this version and bring it up.
    Output { version: u32 },
    /// Bind the seat at this version.
    Seat { version: u32 },
    Ignore,
}

/// The global that an interface names.
pub open spec fn kind_of(interface: Seq<char>) -> Option<GlobalKind> {
    if interface == "wl_compositor"@ {
        Some(GlobalKind::Compositor)
    } else if interface == "zwlr_layer_shell_v1"@ {
        Some(GlobalKind::LayerShell)
    } else if interface == "zwp_linux_dmabuf_v1"@ {
        Some(GlobalKind::Dmabuf)
    } else if interface == "wp_viewporter"@ {
        Some(GlobalKind::Viewporter)
    } else if interface == "wp_fractional_scale_manager_v1"@ {
        Some(GlobalKind::FractionalScaleManager)
    } else if interface == "wl_output"@ {
        Some(GlobalKind::Output)
    } else if interface == "wl_seat"@ {
        Some(GlobalKind::Seat)
    } else {
        None
    }
}

/// The newest version of a global that is spoken here.
pub open spec fn newest(kind: GlobalKind) -> u32 {
    match kind {
        GlobalKind::Compositor => 6,
        GlobalKind::LayerShell => 4,
        GlobalKind::Dmabuf => 4,
        GlobalKind::Viewporter => 1,
        GlobalKind::FractionalScaleManager => 1,
        GlobalKind::Output => 4,
        GlobalKind::Seat => 5,
    }
}

/// The version at which a global is bound.
pub open spec fn bound_version(kind: GlobalKind, offered: u32) -> u32 {
    if offered < newest(kind) {
        offered
    } else {
        newest(kind)
    }
}

fn kind_named(interface: &String) -> (kind: Option<GlobalKind>)
    ensures
        kind == kind_of(interface@),
{
    if *interface == String::from_str("wl_compositor") {
        Some(GlobalKind::Compositor)
    } else if *interface == String::from_str("zwlr_layer_shell_v1") {
        Some(GlobalKind::LayerShell)
    } else if *interface == String::from_str("zwp_linux_dmabuf_v1") {
        Some(GlobalKind::Dmabuf)
    } else if *interface == String::from_str("wp_viewporter") {
        Some(GlobalKind::Viewporter)
    } else if *interface == String::from_str("wp_fractional_scale_manager_v1") {
        Some(GlobalKind::FractionalScaleManager)
    } else if *interface == String::from_str("wl_output") {
        Some(GlobalKind::Output)
    } else if *interface == String::from_str("wl_seat") {
        Some(GlobalKind::Seat)
    } else {
        None
    }
}

fn spoken_version(kind: GlobalKind, offered: u32) -> (version: u32)
    ensures
        version == bound_version(kind, offered),
{
    let limit: u32 = match kind {
        GlobalKind::Compositor => 6,
        GlobalKind::LayerShell => 4,
        GlobalKind::Dmabuf => 4,
        GlobalKind::Viewporter => 1,
        GlobalKind::FractionalScaleManager => 1,
        GlobalKind::Output => 4,
        GlobalKind::Seat => 5,
    };
    offered.min(limit)
}

/// How a global is bound at the start, if it is of use: at the newest version that
/// both sides speak. Buffer feedback comes with the fourth version of its global.
pub fn bind_global(interface: &String, version: u32) -> (binding: Option<GlobalBinding>)
    ensures
        binding == (match kind_of(interface@) {
            Some(kind) => Some(
                GlobalBinding {
                    kind,
                    version: bound_version(kind, version),
                    feedback: kind is Dmabuf && bound_version(kind, version) >= 4,
                },
            ),
            None => None,
        }),
{
    match kind_named(interface) {
        Some(kind) => {
            let spoken: u32 = spoken_version(kind, version);
            Some(
                GlobalBinding {
                    kind,
                    version: spoken,
                    feedback: kind == GlobalKind::Dmabuf && spoken >= 4,
                },
            )
        },
        None => None,
    }
}

/// What follows when a global appears while running: outputs that are not known
/// yet and seats are bound.
pub fn hot_plug(interface: &String, version: u32, known_output: bool) -> (step: HotPlug)
    ensures
        step == (match kind_of(interface@) {
            Some(GlobalKind::Output) => if known_output {
                HotPlug::Ignore
            } else {
                HotPlug::Output { version: bound_version(GlobalKind::Output, version) }
            },
            Some(GlobalKind::Seat) => HotPlug::Seat {
                version: bound_version(GlobalKind::Seat, version),
            },
            _ => HotPlug::Ignore,
        }),
{
    match kind_named(interface) {
        Some(GlobalKind::Output) => {
            if known_output {
                HotPlug::Ignore
            } else {
                HotPlug::Output { version: spoken_version(GlobalKind::Output, version) }
            }
        },
        Some(GlobalKind::Seat) => HotPlug::Seat {
            version: spoken_version(GlobalKind::Seat, version),
        },
        _ => HotPlug::Ignore,
    }
}

/// Why a start is not possible, if so.
pub fn startup_error(
    has_compositor: bool,
    has_layer_shell: bool,
    output_count: usize,
) -> (error: Option<StartupError>)
    ensures
        error == (if !has_compositor {
            Some(StartupError::NoCompositor)
        } else if !has_layer_shell {
            Some(StartupError::NoLayerShell)
        } else if output_count == 0 {
            Some(StartupError::NoOutput)
        } else {
            None
        }),
{
    if !has_compositor {
        Some(StartupError::NoCompositor)
    } else if !has_layer_shell {
        Some(StartupError::NoLayerShell)
    } else if output_count == 0 {
        Some(StartupError::NoOutput)
    } else {
        None
    }
}

/// A global is never bound at a version that the compositor does not offer.
pub proof fn bound_version_is_offered(kind: GlobalKind, offered: u32)
    ensures
        bound_version(kind, offered) <= offered,
        bound_version(kind, offered) <= newest(kind),
{
}

/// A global is bound at the newest version that both sides speak: not above what is
/// offered, not above what is spoken here, and at one of the two. Two names are never
/// taken for the same global.
pub proof fn globals_are_bound_at_the_common_version(
    interface: String,
    version: u32,
    binding: Option<GlobalBinding>,
    other: String,
    other_version: u32,
    other_binding: Option<GlobalBinding>,
)
    requires
        call_ensures(bind_global, (&interface, version), binding),
        call_ensures(bind_global, (&other, other_version), other_binding),
    ensures
        binding matches Some(bound) ==> {
            let spoken = match bound.kind {
                GlobalKind::Compositor => 6int,
                GlobalKind::LayerShell => 4,
                GlobalKind::Dmabuf => 4,
                GlobalKind::Viewporter => 1,
                GlobalKind::FractionalScaleManager => 1,
                GlobalKind::Output => 4,
                GlobalKind::Seat => 5,
            };
            &&& bound.version <= version
            &&& bound.version <= spoken
            &&& bound.version == version || bound.version == spoken
            &&& bound.feedback <==> bound.kind is Dmabuf && version >= 4
            &&& bound.kind is Output <==> interface@ == "wl_output"@
            &&& bound.kind is Compositor <==> interface@ == "wl_compositor"@
            &&& bound.kind is LayerShell <==> interface@ == "zwlr_layer_shell_v1"@
            &&& bound.kind is Seat <==> interface@ == "wl_seat"@
            &&& bound.kind is Dmabuf <==> interface@ == "zwp_linux_dmabuf_v1"@
            &&& bound.kind is Viewporter <==> interface@ == "wp_viewporter"@
            &&& bound.kind is FractionalScaleManager <==> interface@
                == "wp_fractional_scale_manager_v1"@
            &&& other_binding matches Some(other_bound) ==> (other_bound.kind == bound.kind
                <==> other@ == interface@)
        },
{
    names_of_globals_differ();
}

proof fn names_of_globals_differ()
    ensures
        "wl_output"@ != "wl_compositor"@,
        "wl_output"@ != "zwlr_layer_shell_v1"@,
        "wl_output"@ != "wl_seat"@,
        "wl_output"@ != "zwp_linux_dmabuf_v1"@,
        "wl_output"@ != "wp_viewporter"@,
        "wl_output"@ != "wp_fractional_scale_manager_v1"@,
        "wl_compositor"@ != "zwlr_layer_shell_v1"@,
        "wl_compositor"@ != "wl_seat"@,
        "wl_compositor"@ != "zwp_linux_dmabuf_v1"@,
        "wl_compositor"@ != "wp_viewporter"@,
        "wl_compositor"@ != "wp_fractional_scale_manager_v1"@,
        "zwlr_layer_shell_v1"@ != "wl_seat"@,
        "zwlr_layer_shell_v1"@ != "zwp_linux_dmabuf_v1"@,
        "zwlr_layer_shell_v1"@ != "wp_viewporter"@,
        "zwlr_layer_shell_v1"@ != "wp_fractional_scale_manager_v1"@,
        "wl_seat"@ != "zwp_linux_dmabuf_v1"@,
        "wl_seat"@ != "wp_viewporter"@,
        "wl_seat"@ != "wp_fractional_scale_manager_v1"@,
        "zwp_linux_dmabuf_v1"@ != "wp_viewporter"@,
        "zwp_linux_dmabuf_v1"@ != "wp_fractional_scale_manager_v1"@,
        "wp_viewporter"@ != "wp_fractional_scale_manager_v1"@,
{
    reveal_strlit("wl_output");
    reveal_strlit("wl_compositor");
    reveal_strlit("zwlr_layer_shell_v1");
    reveal_strlit("wl_seat");
    reveal_strlit("zwp_linux_dmabuf_v1");
    reveal_strlit("wp_viewporter");
    reveal_strlit("wp_fractional_scale_manager_v1");
    assert("wl_output"@.len() == 9);
    assert("wl_compositor"@.len() == 13);
    assert("wl_seat"@.len() == 7);
    assert("zwlr_layer_shell_v1"@.len() == 19);
    assert("zwp_linux_dmabuf_v1"@.len() == 19);
    assert("wp_viewporter"@.len() == 13);
    assert("wp_fractional_scale_manager_v1"@.len() == 30);
    assert("wl_compositor"@[1] == 'l');
    assert("wp_viewporter"@[1] == 'p');
    assert("zwlr_layer_shell_v1"@[2] == 'l');
    assert("zwp_linux_dmabuf_v1"@[2] == 'p');
}

/// What appears while running is bound as at the start: an output that is not known
/// yet, once, and a seat, at the same version. Everything else is passed over.
pub proof fn hot_plugged_globals_are_bound_alike(
    interface: String,
    version: u32,
    known_output: bool,
    step: HotPlug,
    binding: Option<GlobalBinding>,
)
    requires
        call_ensures(hot_plug, (&interface, version, known_output), step),
        call_ensures(bind_global, (&interface, version), binding),
    ensures
        step matches HotPlug::Output { version: bound } ==> !known_output && interface@
            == "wl_output"@ && (binding matches Some(known) && known.version == bound),
        step matches HotPlug::Seat { version: bound } ==> interface@ == "wl_seat"@ && (
        binding matches Some(known) && known.version == bound),
        interface@ == "wl_output"@ && !known_output ==> step is Output,
        interface@ == "wl_output"@ && known_output ==> step is Ignore,
        interface@ == "wl_seat"@ ==> step is Seat,
{
    names_of_globals_differ();
}

/// A start needs a compositor, a layer shell and an output, and nothing more.
pub proof fn start_needs_all_of_it(
    has_compositor: bool,
    has_layer_shell: bool,
    output_count: usize,
    error: Option<StartupError>,
)
    requires
        call_ensures(startup_error, (has_compositor, has_layer_shell, output_count), error),
    ensures
        error is None <==> has_compositor && has_layer_shell && output_count > 0,
        error == Some(StartupError::NoCompositor) ==> !has_compositor,
        error == Some(StartupError::NoLayerShell) ==> has_compositor && !has_layer_shell,
        error == Some(StartupError::NoOutput) ==> has_compositor && has_layer_shell && output_count
            == 0,
{
}

} // verus!
