//! An output: what the compositor tells of it, its surface, and what is shared with
//! its presenter and its session.

use crate::direct::DirectRelease;
use crate::effects::{PausePresentation, TransitionPresentation};
use crate::geometry::{physical_output_size, scale_saturating};
#[allow(unused_imports)]
use crate::geometry::{integer_pixels, physical_size};
use crate::naming::{display_name, layer_instance_id, OutputMetadata};
#[allow(unused_imports)]
use crate::naming::{called, identity_key, instance_id, md5_digest, text_of, Told};
use crate::presenter::WsiPresenter;
#[allow(unused_imports)]
use crate::presenter::has_no_session;
use crate::render::PresentResult;
use crate::schedule::{redraw_interval, OutputSchedule, Reconnect};
#[allow(unused_imports)]
use crate::schedule::redraw_period;
use crate::session::DisplaySession;
use crate::single::Single;
use vstd::prelude::*;
#[allow(unused_imports)]
use vstd::utf8::encode_utf8;

verus! {

/// The refresh rate of an output that told none, in millihertz.
pub const DEFAULT_REFRESH_MHZ: u32 = 60_000;

/// What the compositor and the surface of an output tell.
#[derive(Debug)]
pub struct OutputEntry {
    pub has_surface: bool,
    pub has_layer_surface: bool,
    pub has_viewport: bool,
    pub has_fractional_scale: bool,
    /// There is a presenter for the surface, with what is shared with it.
    pub bound: bool,
    pub session: Option<DisplaySession>,
    pub reconnect: Reconnect,
    pub scale: i32,
    pub fractional_scale_120: u32,
    /// The surface of the graphics stack that no presenter owns yet.
    pub vk_surface: Option<u64>,
    pub configured_size: Option<(u32, u32)>,
    pub refresh_mhz: u32,
    pub output_name: Option<String>,
    pub output_description: Option<String>,
    pub output_make: Option<String>,
    pub output_model: Option<String>,
}

/// What an output shares with its presenter and its session.
#[derive(Debug)]
pub struct OutputBinding {
    pub display_name: String,
    pub instance_id: String,
    pub configured_size: Option<(u32, u32)>,
    pub scale: i32,
    pub fractional_scale_120: u32,
    pub refresh_mhz: u32,
    /// There is a connection to the daemon, if only one that is being set up.
    pub connected: bool,
    pub registered: bool,
    pub last_pushed_metrics: Option<(u32, u32, u32)>,
    pub pending_present: bool,
    pub next_redraw: Option<u64>,
    pub presenter: WsiPresenter,
}

/// How the surface is told about a new size.
#[derive(Clone, Copy, Debug)]
pub struct SurfaceUpdate {
    pub buffer_scale: Option<i32>,
    pub destination: Option<(i32, i32)>,
}

/// What a graphics surface for a new output came to.
#[derive(Clone, Copy, Debug, PartialEq, Eq, Structural)]
pub enum SurfaceCreation {
    /// There is no device yet.
    NoRuntime,
    Created(u64),
    /// The device cannot present to it.
    Refused,
}

/// What a configured output needs to be presented to.
#[derive(Clone, Copy, Debug, PartialEq, Eq, Structural)]
pub enum BindStep {
    AlreadyBound,
    /// Create a presenter that owns the surface.
    CreatePresenter { surface: u64 },
    NoRuntime,
    NoSurface,
}

/// What is given up with an output or its surface.
#[derive(Clone, Copy, Debug, PartialEq, Eq, Structural)]
pub struct OutputRelease {
    /// The window watcher forgets the output.
    pub unregister: bool,
    pub destroy_surface: Option<u64>,
    pub shut_session: bool,
}

/// What an output can show beyond plain frames.
#[derive(Clone, Copy, Debug, PartialEq, Eq, Structural)]
pub struct PresentationCaps {
    pub pause_blur: bool,
    pub transitions: bool,
}

/// What a frame of the producer comes to.
#[derive(Clone, Copy, Debug, PartialEq, Eq, Structural)]
pub enum ArrivalStep {
    /// There is nobody to tell.
    Ignore,
    /// Turn the frame away.
    Discard,
    /// Find out what the frame shows.
    Resolve,
    /// Hand the frame to the presenter.
    Replace,
    /// Present the frame.
    Present,
}

/// What starting a session waits for.
#[derive(Clone, Copy, Debug, PartialEq, Eq, Structural)]
pub enum StartPhase {
    Create,
    BindDevice,
    SetCaps,
    SetWindowState,
    Connect,
    Handshake,
    Descriptor,
    Finished,
}

/// Why a session could not be started.
#[derive(Clone, Copy, Debug, PartialEq, Eq, Structural)]
pub enum StartError {
    CreateFailed,
    BindDeviceFailed(i32),
    SetCapsFailed(i32),
    SetWindowStateFailed(i32),
    ConnectFailed(i32),
    HandshakeFailed,
    NoDescriptor,
}

/// What the last action of a start came to. Return codes are negative for failures.
#[derive(Clone, Copy, Debug, PartialEq, Eq, Structural)]
pub enum StartReply {
    Created(bool),
    Returned(i32),
    Advanced(bool),
    Descriptor(i32),
}

/// What starting a session needs next.
#[derive(Clone, Copy, Debug, PartialEq, Eq, Structural)]
pub enum StartAction {
    Create,
    BindDevice,
    SetCaps(PresentationCaps),
    SetWindowState,
    Connect { width: u32, height: u32, refresh_mhz: u32 },
    AdvanceHandshake,
    QueryDescriptor,
    Started,
    /// Nothing was created.
    Fail(StartError),
    /// Shut the connection down.
    Abandon(StartError),
}

/// The size in pixels of the buffer behind a surface.
pub open spec fn physical(
    logical: (u32, u32),
    scale: i32,
    fractional_scale_120: u32,
    has_viewport: bool,
) -> (u32, u32) {
    let size = physical_size(logical, scale, fractional_scale_120, has_viewport);
    (size.0 as u32, size.1 as u32)
}

/// A scale that counts: at least one.
pub open spec fn at_least_one(scale: i32) -> i32 {
    if scale < 1 {
        1
    } else {
        scale
    }
}

/// Whether a binding of the producer can be used: one of the graphics stack, with
/// images.
pub fn binding_is_usable(vulkan_backend: bool, image_count: u32, has_images: bool) -> (usable: bool)
    ensures
        usable == (vulkan_backend && image_count > 0 && has_images),
{
    !(!vulkan_backend || image_count == 0 || !has_images)
}

/// What a frame of the producer comes to: it is turned away without images to find
/// it in, where it cannot be made out, and where the presenter refuses it.
pub fn frame_ready(
    connected: bool,
    has_images: bool,
    resolved: Option<bool>,
    stored: Option<bool>,
) -> (step: ArrivalStep)
    ensures
        step == (if !connected {
            ArrivalStep::Ignore
        } else if !has_images || resolved == Some(false) {
            ArrivalStep::Discard
        } else if resolved is None {
            ArrivalStep::Resolve
        } else {
            match stored {
                None => ArrivalStep::Replace,
                Some(true) => ArrivalStep::Present,
                Some(false) => ArrivalStep::Discard,
            }
        }),
{
    if !connected {
        return ArrivalStep::Ignore;
    }
    if !has_images {
        return ArrivalStep::Discard;
    }
    match resolved {
        None => ArrivalStep::Resolve,
        Some(known) => {
            if !known {
                return ArrivalStep::Discard;
            }
            match stored {
                None => ArrivalStep::Replace,
                Some(taken) => if taken {
                    ArrivalStep::Present
                } else {
                    ArrivalStep::Discard
                },
            }
        },
    }
}

impl OutputEntry {
    /// The delay before the next session is within its bounds.
    pub open spec fn wf(self) -> bool {
        self.reconnect.wf()
    }

    /// A new output, of which nothing is known yet.
    pub fn new(now: u64) -> (entry: OutputEntry)
        ensures
            entry == (OutputEntry {
                has_surface: false,
                has_layer_surface: false,
                has_viewport: false,
                has_fractional_scale: false,
                bound: false,
                session: None,
                reconnect: Reconnect {
                    at: now,
                    delay: crate::schedule::INITIAL_RECONNECT_DELAY_NS,
                },
                scale: 1,
                fractional_scale_120: 0,
                vk_surface: None,
                configured_size: None,
                refresh_mhz: DEFAULT_REFRESH_MHZ,
                output_name: None,
                output_description: None,
                output_make: None,
                output_model: None,
            }),
            entry.wf(),
    {
        OutputEntry {
            has_surface: false,
            has_layer_surface: false,
            has_viewport: false,
            has_fractional_scale: false,
            bound: false,
            session: None,
            reconnect: Reconnect::now(now),
            scale: 1,
            fractional_scale_120: 0,
            vk_surface: None,
            configured_size: None,
            refresh_mhz: DEFAULT_REFRESH_MHZ,
            output_name: None,
            output_description: None,
            output_make: None,
            output_model: None,
        }
    }

    /// What the compositor tells of the output, over texts.
    pub open spec fn told(self) -> Told {
        Told {
            name: owned_text(self.output_name),
            description: owned_text(self.output_description),
            make: owned_text(self.output_make),
            model: owned_text(self.output_model),
        }
    }

    /// Whether a session is being given up.
    pub open spec fn is_retiring(self) -> bool {
        self.session is Some && self.session->0.state is Retiring
    }

    /// What is given up with the output.
    pub open spec fn release(self) -> OutputRelease {
        OutputRelease {
            unregister: self.bound,
            destroy_surface: if self.bound {
                None
            } else {
                self.vk_surface
            },
            shut_session: self.bound && self.session is Some,
        }
    }

    /// How the surface is told about a configured size: with a preferred scale the
    /// viewport maps the buffer, else the surface scales it by a whole number.
    pub open spec fn surface_update(self, width: u32, height: u32) -> SurfaceUpdate {
        let mapped = self.fractional_scale_120 > 0 && self.has_viewport;
        SurfaceUpdate {
            buffer_scale: if !self.has_surface {
                None
            } else if mapped {
                Some(1)
            } else {
                Some(at_least_one(self.scale))
            },
            destination: if !self.has_surface || !self.has_viewport {
                None
            } else if mapped {
                Some((width as i32, height as i32))
            } else {
                Some((-1i32, -1i32))
            },
        }
    }

    /// What the compositor tells of the output.
    pub fn metadata(&self) -> (metadata: OutputMetadata<'_>)
        ensures
            metadata.told() == self.told(),
    {
        OutputMetadata {
            name: borrowed_text(&self.output_name),
            description: borrowed_text(&self.output_description),
            make: borrowed_text(&self.output_make),
            model: borrowed_text(&self.output_model),
        }
    }

    /// Takes over the scale of the output, at least one.
    pub fn set_scale(&mut self, factor: i32) -> (scale: i32)
        ensures
            scale == at_least_one(factor),
            *final(self) == (OutputEntry { scale, ..*old(self) }),
            old(self).wf() ==> final(self).wf(),
    {
        let scale: i32 = if factor < 1 {
            1
        } else {
            factor
        };
        self.scale = scale;
        scale
    }

    /// Takes over the name of the output.
    pub fn set_name(&mut self, name: String)
        ensures
            *final(self) == (OutputEntry { output_name: Some(name), ..*old(self) }),
            old(self).wf() ==> final(self).wf(),
    {
        self.output_name = Some(name);
    }

    /// Takes over the description of the output.
    pub fn set_description(&mut self, description: String)
        ensures
            *final(self) == (OutputEntry { output_description: Some(description), ..*old(self) }),
            old(self).wf() ==> final(self).wf(),
    {
        self.output_description = Some(description);
    }

    /// Takes over who made the output.
    pub fn set_geometry(&mut self, make: String, model: String)
        ensures
            *final(self) == (OutputEntry {
                output_make: Some(make),
                output_model: Some(model),
                ..*old(self)
            }),
            old(self).wf() ==> final(self).wf(),
    {
        self.output_make = Some(make);
        self.output_model = Some(model);
    }

    /// Takes over the refresh rate of the current mode. Another mode, or one without
    /// a rate, is passed over.
    pub fn set_mode(&mut self, is_current: bool, refresh: i32) -> (taken: Option<u32>)
        ensures
            taken == (if is_current && refresh > 0 {
                Some(refresh as u32)
            } else {
                None
            }),
            *final(self) == (OutputEntry {
                refresh_mhz: match taken {
                    Some(rate) => rate,
                    None => old(self).refresh_mhz,
                },
                ..*old(self)
            }),
            old(self).wf() ==> final(self).wf(),
    {
        if is_current && refresh > 0 {
            let rate: u32 = refresh as u32;
            self.refresh_mhz = rate;
            Some(rate)
        } else {
            None
        }
    }

    /// Takes over the preferred scale, in 120ths.
    pub fn set_preferred_scale(&mut self, scale: u32)
        ensures
            *final(self) == (OutputEntry { fractional_scale_120: scale, ..*old(self) }),
            old(self).wf() ==> final(self).wf(),
    {
        self.fractional_scale_120 = scale;
    }

    /// How the surface is told about a preferred scale that changed its size in
    /// pixels: the buffer is not scaled, and the viewport maps it to the logical
    /// size.
    pub fn preferred_scale_update(&self, logical: (u32, u32)) -> (update: SurfaceUpdate)
        ensures
            update == (SurfaceUpdate {
                buffer_scale: if self.has_surface {
                    Some(1i32)
                } else {
                    None
                },
                destination: if self.has_viewport {
                    Some((logical.0 as i32, logical.1 as i32))
                } else {
                    None
                },
            }),
    {
        let mut update = SurfaceUpdate { buffer_scale: None, destination: None };
        if self.has_surface {
            update.buffer_scale = Some(1);
        }
        if self.has_viewport {
            update.destination = Some((logical.0 as i32, logical.1 as i32));
        }
        update
    }

    /// Takes over the size of the surface in pixels.
    pub fn set_configured_size(&mut self, size: (u32, u32))
        ensures
            *final(self) == (OutputEntry { configured_size: Some(size), ..*old(self) }),
            old(self).wf() ==> final(self).wf(),
    {
        self.configured_size = Some(size);
    }

    /// Whether a surface has to be created for the output.
    pub fn wants_surface(&self, has_compositor: bool, has_layer_shell: bool) -> (wanted: bool)
        ensures
            wanted == (!self.has_surface && has_compositor && has_layer_shell),
    {
        !self.has_surface && has_compositor && has_layer_shell
    }

    /// Records the surface that was created. Returns whether the device has to be
    /// chosen anew because it cannot present to the surface.
    pub fn bring_up_surface(
        &mut self,
        has_viewport: bool,
        has_fractional_scale: bool,
        creation: SurfaceCreation,
    ) -> (rebuild_runtime: bool)
        ensures
            rebuild_runtime == (creation is Refused),
            *final(self) == (OutputEntry {
                has_surface: true,
                has_layer_surface: true,
                has_viewport,
                has_fractional_scale,
                vk_surface: match creation {
                    SurfaceCreation::Created(surface) => Some(surface),
                    _ => old(self).vk_surface,
                },
                ..*old(self)
            }),
            old(self).wf() ==> final(self).wf(),
    {
        let mut rebuild_runtime: bool = false;
        match creation {
            SurfaceCreation::NoRuntime => {},
            SurfaceCreation::Created(surface) => {
                self.vk_surface = Some(surface);
            },
            SurfaceCreation::Refused => {
                rebuild_runtime = true;
            },
        }
        self.has_surface = true;
        self.has_layer_surface = true;
        self.has_viewport = has_viewport;
        self.has_fractional_scale = has_fractional_scale;
        rebuild_runtime
    }

    /// The size in pixels for a configured size, and how the surface is told.
    pub fn configure(&self, width: u32, height: u32) -> (plan: ((u32, u32), SurfaceUpdate))
        ensures
            plan.0 == physical(
                (width, height),
                at_least_one(self.scale),
                self.fractional_scale_120,
                self.has_viewport,
            ),
            plan.1 == self.surface_update(width, height),
    {
        let scale: i32 = if self.scale < 1 {
            1
        } else {
            self.scale
        };
        let size: (u32, u32) = physical_output_size(
            (width, height),
            scale,
            self.fractional_scale_120,
            self.has_viewport,
        );
        let mapped: bool = self.fractional_scale_120 > 0 && self.has_viewport;
        let mut update = SurfaceUpdate { buffer_scale: None, destination: None };
        if self.has_surface {
            if mapped {
                update.buffer_scale = Some(1);
                update.destination = Some((width as i32, height as i32));
            } else {
                update.buffer_scale = Some(scale);
                if self.has_viewport {
                    update.destination = Some((-1, -1));
                }
            }
        }
        (size, update)
    }

    /// What the output needs to be presented to. A surface that is handed to a
    /// presenter belongs to it from then on.
    pub fn bind_step(&mut self, has_runtime: bool) -> (step: BindStep)
        ensures
            step == (if old(self).bound {
                BindStep::AlreadyBound
            } else if !has_runtime {
                BindStep::NoRuntime
            } else {
                match old(self).vk_surface {
                    Some(surface) => BindStep::CreatePresenter { surface },
                    None => BindStep::NoSurface,
                }
            }),
            *final(self) == (OutputEntry {
                vk_surface: if step is CreatePresenter {
                    None
                } else {
                    old(self).vk_surface
                },
                ..*old(self)
            }),
            old(self).wf() ==> final(self).wf(),
    {
        if self.bound {
            return BindStep::AlreadyBound;
        }
        if !has_runtime {
            return BindStep::NoRuntime;
        }
        match self.vk_surface.take() {
            Some(surface) => BindStep::CreatePresenter { surface },
            None => BindStep::NoSurface,
        }
    }

    /// Records that the output is presented to.
    pub fn set_bound(&mut self)
        ensures
            *final(self) == (OutputEntry { bound: true, ..*old(self) }),
            old(self).wf() ==> final(self).wf(),
    {
        self.bound = true;
    }

    /// What is given up with the output.
    pub fn removal(&self) -> (release: OutputRelease)
        ensures
            release == self.release(),
    {
        OutputRelease {
            unregister: self.bound,
            destroy_surface: if self.bound {
                None
            } else {
                self.vk_surface
            },
            shut_session: self.bound && self.session.is_some(),
        }
    }

    /// Gives up the surface that the compositor closed, and all that depends on it.
    pub fn close_surface(&mut self) -> (release: OutputRelease)
        ensures
            release == old(self).release(),
            *final(self) == (OutputEntry {
                has_surface: false,
                has_layer_surface: false,
                has_fractional_scale: false,
                fractional_scale_120: 0,
                bound: false,
                session: None,
                vk_surface: if old(self).bound {
                    old(self).vk_surface
                } else {
                    None
                },
                ..*old(self)
            }),
            old(self).wf() ==> final(self).wf(),
    {
        let release: OutputRelease = self.removal();
        if !self.bound {
            self.vk_surface = None;
        }
        self.session = None;
        self.has_surface = false;
        self.has_layer_surface = false;
        self.bound = false;
        self.has_fractional_scale = false;
        self.fractional_scale_120 = 0;
        release
    }

    /// Gives up what belongs to a device that is replaced. Every graphics surface
    /// that no presenter owns is destroyed.
    pub fn release_for_rebuild(&mut self) -> (release: OutputRelease)
        ensures
            release == (OutputRelease {
                unregister: old(self).bound,
                destroy_surface: old(self).vk_surface,
                shut_session: old(self).bound && old(self).session is Some,
            }),
            *final(self) == (OutputEntry {
                bound: false,
                session: None,
                vk_surface: None,
                ..*old(self)
            }),
            old(self).wf() ==> final(self).wf(),
    {
        let release = OutputRelease {
            unregister: self.bound,
            destroy_surface: self.vk_surface,
            shut_session: self.bound && self.session.is_some(),
        };
        self.bound = false;
        self.session = None;
        self.vk_surface = None;
        release
    }

    /// Takes over what a new device has for the output: a presenter, whose session
    /// is due at once, or a surface that waits to be configured.
    pub fn adopt_rebuilt(&mut self, has_presenter: bool, surface: Option<u64>, now: u64)
        ensures
            *final(self) == (if has_presenter {
                OutputEntry {
                    bound: true,
                    reconnect: Reconnect {
                        at: now,
                        delay: crate::schedule::INITIAL_RECONNECT_DELAY_NS,
                    },
                    ..*old(self)
                }
            } else {
                OutputEntry {
                    vk_surface: match surface {
                        Some(handle) => Some(handle),
                        None => old(self).vk_surface,
                    },
                    ..*old(self)
                }
            }),
            old(self).wf() ==> final(self).wf(),
    {
        if has_presenter {
            self.bound = true;
            self.reconnect = Reconnect::now(now);
        } else if let Some(handle) = surface {
            self.vk_surface = Some(handle);
        }
    }

    /// Whether a session has to be started.
    pub fn session_due(&self, now: u64) -> (due: bool)
        ensures
            due == (self.session is None && self.bound && self.reconnect.at <= now),
    {
        self.session.is_none() && self.bound && self.reconnect.is_due(now)
    }

    /// Records the session that was started.
    pub fn begin_session(&mut self, session: DisplaySession)
        ensures
            *final(self) == (OutputEntry { session: Some(session), ..*old(self) }),
            old(self).wf() ==> final(self).wf(),
    {
        self.session = Some(session);
    }

    /// Ends the session, and schedules the next one.
    pub fn end_session(&mut self, now: u64) -> (ended: Option<DisplaySession>)
        requires
            old(self).wf(),
            now + crate::schedule::MAX_RECONNECT_DELAY_NS <= u64::MAX,
        ensures
            ended == old(self).session,
            final(self).wf(),
            *final(self) == (match old(self).session {
                Some(session) => OutputEntry {
                    session: None,
                    reconnect: old(self).reconnect.rescheduled(
                        now,
                        (if now > session.started {
                            now - session.started
                        } else {
                            0
                        }) as u64,
                    ),
                    ..*old(self)
                },
                None => *old(self),
            }),
    {
        let ended: Option<DisplaySession> = self.session;
        if let Some(session) = ended {
            self.session = None;
            let lived: u64 = session.lived(now);
            self.reconnect.schedule(now, lived);
        }
        ended
    }

    /// Schedules another attempt after a session could not be started.
    pub fn schedule_reconnect(&mut self, now: u64)
        requires
            old(self).wf(),
            now + crate::schedule::MAX_RECONNECT_DELAY_NS <= u64::MAX,
        ensures
            final(self).wf(),
            *final(self) == (OutputEntry {
                reconnect: old(self).reconnect.rescheduled(now, 0),
                ..*old(self)
            }),
    {
        self.reconnect.schedule(now, 0);
    }

    /// Whether window flags can be sent to the daemon.
    pub fn takes_window_state(&self) -> (takes: bool)
        ensures
            takes == (self.session is Some && !self.is_retiring()),
    {
        match &self.session {
            Some(session) => !session.is_retiring(),
            None => false,
        }
    }

    /// Whether pointer events can be sent to the daemon.
    pub fn takes_pointer(&self) -> (takes: bool)
        ensures
            takes == (self.bound && self.session is Some && self.session->0.state is Ready),
    {
        match &self.session {
            Some(session) => self.bound && session.is_ready(),
            None => false,
        }
    }

    /// What the output has coming up, with what its binding holds where there is
    /// one.
    pub fn schedule(&self, pending_present: bool, next_redraw: Option<u64>) -> (schedule:
        OutputSchedule)
        ensures
            schedule == (OutputSchedule {
                retiring: self.is_retiring(),
                pending_present: self.bound && pending_present,
                next_redraw: if self.bound {
                    next_redraw
                } else {
                    None
                },
                awaits_session: self.session is None && self.bound,
                reconnect_at: self.reconnect.at,
            }),
    {
        let retiring: bool = match &self.session {
            Some(session) => session.is_retiring(),
            None => false,
        };
        OutputSchedule {
            retiring,
            pending_present: self.bound && pending_present,
            next_redraw: if self.bound {
                next_redraw
            } else {
                None
            },
            awaits_session: self.session.is_none() && self.bound,
            reconnect_at: self.reconnect.at,
        }
    }
}

/// The text of a string, where there is one.
pub open spec fn owned_text(value: Option<String>) -> Option<Seq<char>> {
    match value {
        Some(text) => Some(text@),
        None => None,
    }
}

fn borrowed_text(value: &Option<String>) -> (text: Option<&str>)
    ensures
        crate::naming::text_of(text) == owned_text(*value),
{
    match value {
        Some(owned) => Some(owned.as_str()),
        None => None,
    }
}

impl OutputBinding {
    /// The presenter is well-formed, and the size of the surface is known.
    pub open spec fn wf(self) -> bool {
        self.presenter.wf() && self.configured_size is Some
    }

    /// What is pushed for a size in pixels.
    pub open spec fn metrics(self, size: (u32, u32)) -> (u32, u32, u32) {
        (size.0, size.1, self.refresh_mhz)
    }

    /// What has to be pushed to the daemon for a size in pixels.
    pub open spec fn unpushed(self, size: (u32, u32)) -> Option<(u32, u32, u32)> {
        if self.registered && self.connected && self.last_pushed_metrics != Some(
            self.metrics(size),
        ) {
            Some(self.metrics(size))
        } else {
            None
        }
    }

    /// The binding with its surface at a new size.
    pub open spec fn resized(self, size: (u32, u32)) -> OutputBinding {
        let extent = crate::geometry::Extent2D { width: size.0, height: size.1 };
        OutputBinding {
            configured_size: Some(size),
            presenter: if self.presenter.swapchain.extent == extent {
                self.presenter
            } else {
                WsiPresenter {
                    recreate_extent: Some(extent),
                    blank_state: self.presenter.blank_state.after_invalidation(),
                    ..self.presenter
                }
            },
            ..self
        }
    }

    /// The binding with everything forgotten that a session brought.
    pub open spec fn without_session(self) -> OutputBinding {
        OutputBinding {
            registered: false,
            pending_present: false,
            next_redraw: None,
            last_pushed_metrics: None,
            presenter: self.presenter.after_session_reset(),
            ..self
        }
    }

    /// Binds an output of a given size to a presenter.
    pub fn make_output_binding(
        name_prefix: &str,
        entry: &OutputEntry,
        output: u32,
        presenter: WsiPresenter,
        size: (u32, u32),
    ) -> (binding: OutputBinding)
        ensures
            binding.display_name@ == called(name_prefix@, entry.told().name, output),
            binding.instance_id@ == instance_id(
                md5_digest(encode_utf8(identity_key(entry.told(), output))),
            ),
            binding == (OutputBinding {
                display_name: binding.display_name,
                instance_id: binding.instance_id,
                configured_size: Some(size),
                scale: at_least_one(entry.scale),
                fractional_scale_120: entry.fractional_scale_120,
                refresh_mhz: entry.refresh_mhz,
                connected: false,
                registered: false,
                last_pushed_metrics: None,
                pending_present: false,
                next_redraw: None,
                presenter,
            }),
            presenter.wf() ==> binding.wf(),
    {
        let metadata = entry.metadata();
        let name: String = display_name(name_prefix, metadata.name, output);
        let id: String = layer_instance_id(&metadata, output);
        OutputBinding {
            display_name: name,
            instance_id: id,
            configured_size: Some(size),
            scale: if entry.scale < 1 {
                1
            } else {
                entry.scale
            },
            fractional_scale_120: entry.fractional_scale_120,
            refresh_mhz: entry.refresh_mhz,
            connected: false,
            registered: false,
            last_pushed_metrics: None,
            pending_present: false,
            next_redraw: None,
            presenter,
        }
    }

    /// What the output is called.
    pub fn display_name(&self) -> (name: &str)
        ensures
            name@ == self.display_name@,
    {
        self.display_name.as_str()
    }

    fn resize(&mut self, size: (u32, u32))
        ensures
            *final(self) == old(self).resized(size),
            old(self).wf() ==> final(self).wf(),
    {
        self.configured_size = Some(size);
        self.presenter.request_resize(size.0, size.1);
    }

    /// Takes over the scale of the output. Where no preferred scale overrides it and
    /// the logical size is known, the surface changes its size.
    pub fn apply_scale(
        &mut self,
        factor: i32,
        fractional_scale_120: u32,
        logical: Option<(u32, u32)>,
    ) -> (size: Option<(u32, u32)>)
        ensures
            size == (match logical {
                Some(known) if fractional_scale_120 == 0 => Some(
                    (
                        integer_pixels(known.0, at_least_one(factor) as int) as u32,
                        integer_pixels(known.1, at_least_one(factor) as int) as u32,
                    ),
                ),
                _ => None,
            }),
            ({
                let scaled = OutputBinding { scale: at_least_one(factor), ..*old(self) };
                *final(self) == (match size {
                    Some(pixels) => scaled.resized(pixels),
                    None => scaled,
                })
            }),
            old(self).wf() ==> final(self).wf(),
    {
        let scale: i32 = if factor < 1 {
            1
        } else {
            factor
        };
        self.scale = scale;
        if fractional_scale_120 == 0 {
            if let Some((width, height)) = logical {
                let size: (u32, u32) = (
                    scale_saturating(width, scale as u32),
                    scale_saturating(height, scale as u32),
                );
                self.resize(size);
                return Some(size);
            }
        }
        None
    }

    /// Takes over the preferred scale. Where the logical size is known and the size
    /// in pixels changes with it, the surface changes its size.
    pub fn apply_preferred_scale(
        &mut self,
        preferred_120: u32,
        integer_scale: i32,
        has_viewport: bool,
        logical: Option<(u32, u32)>,
    ) -> (size: Option<(u32, u32)>)
        ensures
            size == (match logical {
                Some(known) => {
                    let pixels = physical(known, integer_scale, preferred_120, has_viewport);
                    if old(self).configured_size == Some(pixels) {
                        None
                    } else {
                        Some(pixels)
                    }
                },
                None => None,
            }),
            ({
                let scaled = OutputBinding { fractional_scale_120: preferred_120, ..*old(self) };
                *final(self) == (match size {
                    Some(pixels) => scaled.resized(pixels),
                    None => scaled,
                })
            }),
            old(self).wf() ==> final(self).wf(),
    {
        self.fractional_scale_120 = preferred_120;
        match logical {
            None => None,
            Some(known) => {
                let size: (u32, u32) = physical_output_size(
                    known,
                    integer_scale,
                    preferred_120,
                    has_viewport,
                );
                if let Some(current) = self.configured_size {
                    if current.0 == size.0 && current.1 == size.1 {
                        return None;
                    }
                }
                self.resize(size);
                Some(size)
            },
        }
    }

    /// Takes over what the compositor configured.
    pub fn apply_configure(&mut self, scale: i32, fractional_scale_120: u32, size: (u32, u32))
        ensures
            *final(self) == (OutputBinding { scale, fractional_scale_120, ..*old(self) }).resized(
                size,
            ),
            old(self).wf() ==> final(self).wf(),
    {
        self.scale = scale;
        self.fractional_scale_120 = fractional_scale_120;
        self.resize(size);
    }

    /// Takes over the refresh rate. Returns the size to push again, where it is
    /// known.
    pub fn apply_refresh(&mut self, refresh_mhz: u32) -> (size: Option<(u32, u32)>)
        ensures
            size == old(self).configured_size,
            *final(self) == (OutputBinding { refresh_mhz, ..*old(self) }),
            old(self).wf() ==> final(self).wf(),
    {
        self.refresh_mhz = refresh_mhz;
        self.configured_size
    }

    /// What has to be pushed to the daemon for a size in pixels: nothing before the
    /// output is registered, nothing that was pushed last, and nothing without a
    /// connection.
    pub fn push_resize_if_registered(&self, size: (u32, u32)) -> (metrics: Option<(u32, u32, u32)>)
        ensures
            metrics == self.unpushed(size),
    {
        if !self.registered {
            return None;
        }
        if let Some(last) = self.last_pushed_metrics {
            if last.0 == size.0 && last.1 == size.1 && last.2 == self.refresh_mhz {
                return None;
            }
        }
        if self.connected {
            Some((size.0, size.1, self.refresh_mhz))
        } else {
            None
        }
    }

    /// Records what was pushed to the daemon.
    pub fn metrics_pushed(&mut self, metrics: (u32, u32, u32))
        ensures
            *final(self) == (OutputBinding { last_pushed_metrics: Some(metrics), ..*old(self) }),
            old(self).wf() ==> final(self).wf(),
    {
        self.last_pushed_metrics = Some(metrics);
    }

    /// What the output can show beyond plain frames.
    pub fn presentation_caps(&self) -> (caps: PresentationCaps)
        ensures
            caps == (PresentationCaps {
                pause_blur: self.presenter.pause_blur_available,
                transitions: self.presenter.transitions_supported(),
            }),
    {
        PresentationCaps {
            pause_blur: self.presenter.supports_pause_blur(),
            transitions: self.presenter.supports_transitions(),
        }
    }

    /// Whether `reply` answers what starting a session waits for.
    pub open spec fn start_answered(phase: StartPhase, reply: StartReply) -> bool {
        match phase {
            StartPhase::Create => reply is Created,
            StartPhase::Handshake => reply is Advanced,
            StartPhase::Descriptor => reply is Descriptor,
            StartPhase::Finished => false,
            _ => reply is Returned,
        }
    }

    /// What follows a return code of a start that is not negative.
    pub open spec fn start_next(self, phase: StartPhase) -> (StartPhase, StartAction) {
        match phase {
            StartPhase::BindDevice => (
                StartPhase::SetCaps,
                StartAction::SetCaps(
                    PresentationCaps {
                        pause_blur: self.presenter.pause_blur_available,
                        transitions: self.presenter.transitions_supported(),
                    },
                ),
            ),
            StartPhase::SetCaps => (StartPhase::SetWindowState, StartAction::SetWindowState),
            StartPhase::SetWindowState => (
                StartPhase::Connect,
                StartAction::Connect {
                    width: (self.configured_size->0).0,
                    height: (self.configured_size->0).1,
                    refresh_mhz: self.refresh_mhz,
                },
            ),
            _ => (StartPhase::Handshake, StartAction::AdvanceHandshake),
        }
    }

    /// Why a start fails on a negative return code.
    pub open spec fn start_failure(phase: StartPhase, code: i32) -> StartError {
        match phase {
            StartPhase::BindDevice => StartError::BindDeviceFailed(code),
            StartPhase::SetCaps => StartError::SetCapsFailed(code),
            StartPhase::SetWindowState => StartError::SetWindowStateFailed(code),
            _ => StartError::ConnectFailed(code),
        }
    }

    /// What follows a reply while a session is started.
    pub open spec fn start_replied(self, phase: StartPhase, reply: StartReply) -> (
        StartPhase,
        StartAction,
    ) {
        match reply {
            StartReply::Created(true) => (StartPhase::BindDevice, StartAction::BindDevice),
            StartReply::Created(false) => (
                StartPhase::Finished,
                StartAction::Fail(StartError::CreateFailed),
            ),
            StartReply::Returned(code) => if code < 0 {
                (
                    StartPhase::Finished,
                    StartAction::Abandon(OutputBinding::start_failure(phase, code)),
                )
            } else {
                self.start_next(phase)
            },
            StartReply::Advanced(true) => (StartPhase::Descriptor, StartAction::QueryDescriptor),
            StartReply::Advanced(false) => (
                StartPhase::Finished,
                StartAction::Abandon(StartError::HandshakeFailed),
            ),
            StartReply::Descriptor(fd) => (
                StartPhase::Finished,
                if fd < 0 {
                    StartAction::Abandon(StartError::NoDescriptor)
                } else {
                    StartAction::Started
                },
            ),
        }
    }

    /// Goes on starting a session; it begins with the phase and the action `Create`.
    /// The connection exists from its creation on, and is gone where the start is
    /// abandoned.
    pub fn start_display_session(&mut self, phase: StartPhase, reply: StartReply) -> (step: (
        StartPhase,
        StartAction,
    ))
        requires
            old(self).wf(),
            OutputBinding::start_answered(phase, reply),
        ensures
            step == old(self).start_replied(phase, reply),
            *final(self) == (OutputBinding {
                connected: if reply == StartReply::Created(true) {
                    true
                } else if step.1 is Abandon {
                    false
                } else {
                    old(self).connected
                },
                ..*old(self)
            }),
            old(self).wf() ==> final(self).wf(),
    {
        match reply {
            StartReply::Created(created) => {
                if created {
                    self.connected = true;
                    (StartPhase::BindDevice, StartAction::BindDevice)
                } else {
                    (StartPhase::Finished, StartAction::Fail(StartError::CreateFailed))
                }
            },
            StartReply::Returned(code) => {
                if code < 0 {
                    self.connected = false;
                    let error: StartError = match phase {
                        StartPhase::BindDevice => StartError::BindDeviceFailed(code),
                        StartPhase::SetCaps => StartError::SetCapsFailed(code),
                        StartPhase::SetWindowState => StartError::SetWindowStateFailed(code),
                        _ => StartError::ConnectFailed(code),
                    };
                    return (StartPhase::Finished, StartAction::Abandon(error));
                }
                match phase {
                    StartPhase::BindDevice => (
                        StartPhase::SetCaps,
                        StartAction::SetCaps(self.presentation_caps()),
                    ),
                    StartPhase::SetCaps => (
                        StartPhase::SetWindowState,
                        StartAction::SetWindowState,
                    ),
                    StartPhase::SetWindowState => {
                        let (width, height) = self.configured_size.unwrap();
                        (
                            StartPhase::Connect,
                            StartAction::Connect {
                                width,
                                height,
                                refresh_mhz: self.refresh_mhz,
                            },
                        )
                    },
                    _ => (StartPhase::Handshake, StartAction::AdvanceHandshake),
                }
            },
            StartReply::Advanced(advanced) => {
                if advanced {
                    (StartPhase::Descriptor, StartAction::QueryDescriptor)
                } else {
                    self.connected = false;
                    (StartPhase::Finished, StartAction::Abandon(StartError::HandshakeFailed))
                }
            },
            StartReply::Descriptor(fd) => {
                if fd < 0 {
                    self.connected = false;
                    (StartPhase::Finished, StartAction::Abandon(StartError::NoDescriptor))
                } else {
                    (StartPhase::Finished, StartAction::Started)
                }
            },
        }
    }

    /// Records that the daemon knows the output, with the metrics it was told when
    /// the connection was set up.
    pub fn register(&mut self)
        ensures
            *final(self) == (OutputBinding {
                registered: true,
                last_pushed_metrics: match old(self).configured_size {
                    Some(size) => Some(old(self).metrics(size)),
                    None => old(self).last_pushed_metrics,
                },
                ..*old(self)
            }),
            old(self).wf() ==> final(self).wf(),
    {
        self.registered = true;
        if let Some((width, height)) = self.configured_size {
            self.last_pushed_metrics = Some((width, height, self.refresh_mhz));
        }
    }

    /// Asks for the surface to be presented as soon as possible.
    pub fn request_present(&mut self)
        ensures
            *final(self) == (OutputBinding {
                next_redraw: None,
                pending_present: true,
                ..*old(self)
            }),
            old(self).wf() ==> final(self).wf(),
    {
        self.next_redraw = None;
        self.pending_present = true;
    }

    /// Whether the surface has to be presented.
    pub fn present_due(&self, now: u64) -> (due: bool)
        ensures
            due == (self.pending_present || (self.next_redraw is Some && self.next_redraw->0
                <= now)),
    {
        self.pending_present || match self.next_redraw {
            Some(deadline) => deadline <= now,
            None => false,
        }
    }

    /// Takes over what presenting came to: another frame after one refresh where one
    /// is wanted, another attempt where something was busy.
    pub fn present_finished(&mut self, result: PresentResult, now: u64)
        requires
            now + crate::schedule::MAX_REDRAW_INTERVAL_NS <= u64::MAX,
        ensures
            *final(self) == (OutputBinding {
                pending_present: result is Pending,
                next_redraw: match result {
                    PresentResult::Presented { redraw: true } => Some(
                        (now + redraw_period(old(self).refresh_mhz)) as u64,
                    ),
                    _ => None,
                },
                ..*old(self)
            }),
            old(self).wf() ==> final(self).wf(),
    {
        match result {
            PresentResult::Presented { redraw } => {
                self.pending_present = false;
                self.next_redraw = if redraw {
                    Some(now + redraw_interval(self.refresh_mhz))
                } else {
                    None
                };
            },
            PresentResult::Pending => {
                self.pending_present = true;
                self.next_redraw = None;
            },
        }
    }

    /// Gives up on an attempt to present that failed.
    pub fn present_failed(&mut self)
        ensures
            *final(self) == (OutputBinding {
                pending_present: false,
                next_redraw: None,
                ..*old(self)
            }),
            old(self).wf() ==> final(self).wf(),
    {
        self.pending_present = false;
        self.next_redraw = None;
    }

    /// Takes over what the daemon configures. Without a configuration everything of
    /// the session is forgotten. `interpolated` is the radius between the ends of a
    /// movement of the blur that is under way. Returns whether the surface is
    /// presented again.
    pub fn apply_snapshot(
        &mut self,
        generation: u64,
        pause: PausePresentation,
        transition: Option<TransitionPresentation>,
        now: u64,
        interpolated: Single,
    ) -> (changed: bool)
        ensures
            generation == 0 ==> !changed && *final(self) == (OutputBinding {
                presenter: old(self).presenter.after_session_reset(),
                pending_present: false,
                next_redraw: None,
                ..*old(self)
            }),
            generation != 0 ==> {
                let before = old(self).presenter;
                &&& changed == (!pause.wanted_radius().is_near(before.blur_transition.target) || (
                before.pause_presentation.configured && !pause.configured
                    && before.blur_resources is Some) || (transition is None && (
                before.prepared_transition is Some || before.active_transition is Some)))
                &&& *final(self) == (OutputBinding {
                    presenter: WsiPresenter {
                        pause_presentation: pause,
                        pause_presentation_initialized: true,
                        blur_transition: before.blur_transition.retargeted(
                            pause.wanted_radius(),
                            now,
                            before.animates_blur(),
                            interpolated,
                        ),
                        presentation_config_generation: generation,
                        transition_presentation: transition,
                        prepared_transition: if before.prepared_transition is Some {
                            transition
                        } else {
                            None
                        },
                        active_transition: if transition is Some {
                            before.active_transition
                        } else {
                            None
                        },
                        ..before
                    },
                    pending_present: old(self).pending_present || changed,
                    next_redraw: if changed {
                        None
                    } else {
                        old(self).next_redraw
                    },
                    ..*old(self)
                })
            },
            old(self).wf() ==> final(self).wf(),
    {
        if generation == 0 {
            self.presenter.reset_display_session();
            self.pending_present = false;
            self.next_redraw = None;
            return false;
        }
        let pause_changed: bool = self.presenter.apply_pause_snapshot(pause, now, interpolated);
        let dropped: bool = self.presenter.apply_transition_snapshot(generation, transition);
        let changed: bool = dropped || pause_changed;
        if changed {
            self.request_present();
        }
        changed
    }

    /// Takes over whether the wallpaper is paused. Returns whether the surface is
    /// presented again.
    pub fn apply_state(&mut self, active: bool, now: u64, interpolated: Single) -> (changed: bool)
        ensures
            ({
                let before = old(self).presenter;
                let pause = PausePresentation { active, ..before.pause_presentation };
                &&& changed == !pause.wanted_radius().is_near(before.blur_transition.target)
                &&& *final(self) == (OutputBinding {
                    presenter: WsiPresenter {
                        pause_presentation: pause,
                        blur_transition: before.blur_transition.retargeted(
                            pause.wanted_radius(),
                            now,
                            before.animates_blur(),
                            interpolated,
                        ),
                        ..before
                    },
                    pending_present: old(self).pending_present || changed,
                    next_redraw: if changed {
                        None
                    } else {
                        old(self).next_redraw
                    },
                    ..*old(self)
                })
            }),
            old(self).wf() ==> final(self).wf(),
    {
        let changed: bool = self.presenter.apply_pause_state(active, now, interpolated);
        if changed {
            self.request_present();
        }
        changed
    }

    /// Falls back to a black frame after the session failed. Returns what is owed
    /// for a frame that was never drawn, and whether the black frame is asked for
    /// by this call.
    pub fn fall_back_to_black(&mut self) -> (outcome: (Option<DirectRelease>, bool))
        ensures
            outcome.0 == (match old(self).presenter.pending_direct_frame {
                Some(frame) => Some(frame.owed()),
                None => None,
            }),
            outcome.1 == (old(self).presenter.blank_state is Inactive),
            *final(self) == (OutputBinding {
                registered: false,
                next_redraw: None,
                last_pushed_metrics: None,
                pending_present: old(self).pending_present || !(old(self).presenter.blank_state
                    is Committed),
                presenter: WsiPresenter {
                    pending_direct_frame: None,
                    blank_state: old(self).presenter.blank_state.requested(),
                    ..old(self).presenter.after_session_reset()
                },
                ..*old(self)
            }),
            old(self).wf() ==> final(self).wf(),
    {
        self.registered = false;
        self.next_redraw = None;
        self.last_pushed_metrics = None;
        let release: Option<DirectRelease> = self.presenter.discard_pending_direct_frame();
        let already_blank: bool = self.presenter.blank_committed();
        let requested: bool = self.presenter.request_blank();
        if !already_blank {
            self.pending_present = true;
        }
        (release, requested)
    }

    /// Gives up on the black frame as well.
    pub fn give_up_blank(&mut self)
        ensures
            *final(self) == (OutputBinding {
                pending_present: false,
                next_redraw: None,
                presenter: WsiPresenter {
                    blank_state: crate::blank::BlankState::Inactive,
                    ..old(self).presenter
                },
                ..*old(self)
            }),
            old(self).wf() ==> final(self).wf(),
    {
        self.present_failed();
        self.presenter.abandon_blank();
    }

    /// Forgets everything that the session brought, before its connection is shut
    /// down.
    pub fn shutdown_display_session(&mut self)
        ensures
            *final(self) == old(self).without_session(),
            old(self).wf() ==> final(self).wf(),
    {
        self.registered = false;
        self.pending_present = false;
        self.next_redraw = None;
        self.last_pushed_metrics = None;
        self.presenter.reset_display_session();
    }

    /// Records that the connection is gone.
    pub fn disconnected(&mut self)
        ensures
            *final(self) == (OutputBinding { connected: false, ..*old(self) }),
            old(self).wf() ==> final(self).wf(),
    {
        self.connected = false;
    }
}

/// The daemon is told the same metrics once: right after a push, and right after the
/// output was registered at that size, there is nothing to push.
pub proof fn metrics_are_pushed_once(binding: OutputBinding, size: (u32, u32))
    ensures
        (OutputBinding { last_pushed_metrics: Some(binding.metrics(size)), ..binding }).unpushed(
            size,
        ) is None,
{
}

/// After a session was closed, nothing of it is left that could be presented: no
/// configuration, no content, no transition, no redraw.
pub proof fn closed_session_leaves_nothing(binding: OutputBinding)
    ensures
        ({
            let closed = binding.without_session();
            &&& !closed.registered
            &&& !closed.pending_present
            &&& closed.next_redraw is None
            &&& closed.last_pushed_metrics is None
            &&& closed.presenter.active_transition is None
            &&& closed.presenter.prepared_transition is None
            &&& closed.presenter.transition_presentation is None
            &&& closed.presenter.content_presentation.committed is None
            &&& closed.presenter.content_presentation.submitted is None
            &&& closed.presenter.content_presentation.bound is None
            &&& !closed.presenter.scene_valid()
            &&& closed.without_session() == closed
        }),
{
}

/// The buffer of a surface covers it: the size in pixels, the scale that the surface is
/// told and the size it is mapped to fit together. Where the surface scales the buffer,
/// the buffer is as many times as large; where the viewport maps it, the buffer is not
/// scaled and mapped to exactly the logical size.
pub proof fn buffer_covers_the_surface(
    entry: OutputEntry,
    width: u32,
    height: u32,
    plan: ((u32, u32), SurfaceUpdate),
)
    requires
        call_ensures(OutputEntry::configure, (&entry, width, height), plan),
    ensures
        ({
            let (size, update) = plan;
            let mapped = entry.fractional_scale_120 > 0 && entry.has_viewport;
            &&& entry.has_surface <==> update.buffer_scale is Some
            &&& update.destination is Some <==> entry.has_surface && entry.has_viewport
            &&& mapped && entry.has_surface ==> update.buffer_scale == Some(1i32)
                && update.destination == Some((width as i32, height as i32))
            &&& !mapped && update.buffer_scale is Some ==> {
                let scale = update.buffer_scale->0;
                &&& scale >= 1
                &&& entry.scale >= 1 ==> scale == entry.scale
                &&& entry.scale < 1 ==> scale == 1
                &&& width * scale <= u32::MAX ==> size.0 == width * scale
                &&& width * scale > u32::MAX ==> size.0 == u32::MAX
                &&& height * scale <= u32::MAX ==> size.1 == height * scale
                &&& height * scale > u32::MAX ==> size.1 == u32::MAX
            }
            &&& !mapped && update.destination is Some ==> update.destination == Some(
                (-1i32, -1i32),
            )
            &&& mapped && width * entry.fractional_scale_120 + 60 < 120 * 0x1_0000_0000 ==> -60
                <= 120 * size.0 - width * entry.fractional_scale_120 <= 60
            &&& mapped && height * entry.fractional_scale_120 + 60 < 120 * 0x1_0000_0000 ==> -60
                <= 120 * size.1 - height * entry.fractional_scale_120 <= 60
        }),
{
    let mapped = entry.fractional_scale_120 > 0 && entry.has_viewport;
    if mapped {
        if width * entry.fractional_scale_120 + 60 < 120 * 0x1_0000_0000 {
            crate::geometry::fractional_size_is_nearest(width, entry.fractional_scale_120);
        }
        if height * entry.fractional_scale_120 + 60 < 120 * 0x1_0000_0000 {
            crate::geometry::fractional_size_is_nearest(height, entry.fractional_scale_120);
        }
    } else {
        let scale = at_least_one(entry.scale);
        assert(0 <= width * scale && 0 <= height * scale) by (nonlinear_arith)
            requires
                scale >= 1,
        ;
    }
}

/// Whichever way a new scale arrives, the surface comes to the size that it would be
/// configured to: a whole scale and a preferred one give the size of a configured
/// output with the same scales.
pub proof fn scale_changes_come_to_the_configured_size(
    entry: OutputEntry,
    logical: (u32, u32),
    plan: ((u32, u32), SurfaceUpdate),
    scaled: &mut OutputBinding,
    scaled_to: Option<(u32, u32)>,
    preferring: &mut OutputBinding,
    preferred_to: Option<(u32, u32)>,
)
    requires
        call_ensures(OutputEntry::configure, (&entry, logical.0, logical.1), plan),
        call_ensures(
            OutputBinding::apply_scale,
            (scaled, entry.scale, entry.fractional_scale_120, Some(logical)),
            scaled_to,
        ),
        call_ensures(
            OutputBinding::apply_preferred_scale,
            (
                preferring,
                entry.fractional_scale_120,
                entry.scale,
                entry.has_viewport,
                Some(logical),
            ),
            preferred_to,
        ),
    ensures
        entry.fractional_scale_120 == 0 ==> scaled_to == Some(plan.0) && final(
            scaled).configured_size == Some(plan.0),
        entry.fractional_scale_120 > 0 ==> scaled_to is None && final(scaled).configured_size
            == old(scaled).configured_size,
        final(preferring).configured_size == Some(plan.0) || old(preferring).configured_size
            == Some(plan.0),
        preferred_to is Some <==> old(preferring).configured_size != Some(plan.0),
        preferred_to is Some ==> preferred_to == Some(plan.0),
        final(preferring).fractional_scale_120 == entry.fractional_scale_120,
        entry.scale >= 1 ==> final(scaled).scale == entry.scale,
        entry.scale < 1 ==> final(scaled).scale == 1,
{
}

/// Without a logical size nothing is resized; the scales are taken over all the same.
pub proof fn unknown_size_is_not_scaled(
    scaled: &mut OutputBinding,
    factor: i32,
    fractional_scale_120: u32,
    scaled_to: Option<(u32, u32)>,
    preferring: &mut OutputBinding,
    preferred_120: u32,
    has_viewport: bool,
    preferred_to: Option<(u32, u32)>,
)
    requires
        call_ensures(
            OutputBinding::apply_scale,
            (scaled, factor, fractional_scale_120, None),
            scaled_to,
        ),
        call_ensures(
            OutputBinding::apply_preferred_scale,
            (preferring, preferred_120, factor, has_viewport, None),
            preferred_to,
        ),
    ensures
        scaled_to is None,
        preferred_to is None,
        final(scaled).configured_size == old(scaled).configured_size,
        final(preferring).configured_size == old(preferring).configured_size,
        final(preferring).fractional_scale_120 == preferred_120,
        final(scaled).presenter == old(scaled).presenter,
        final(preferring).presenter == old(preferring).presenter,
{
}

/// A surface that is resized has its swapchain replaced by one of that size, unless the
/// swapchain has it already; a black frame on it is drawn again.
pub proof fn resized_surface_replaces_its_swapchain(
    binding: &mut OutputBinding,
    scale: i32,
    fractional_scale_120: u32,
    size: (u32, u32),
)
    requires
        call_ensures(
            OutputBinding::apply_configure,
            (binding, scale, fractional_scale_120, size),
            (),
        ),
    ensures
        ({
            let before = old(binding).presenter;
            let after = final(binding).presenter;
            let same = before.swapchain.extent.width == size.0 && before.swapchain.extent.height
                == size.1;
            &&& final(binding).configured_size == Some(size)
            &&& final(binding).scale == scale
            &&& final(binding).fractional_scale_120 == fractional_scale_120
            &&& same ==> after == before
            &&& !same ==> (after.recreate_extent matches Some(extent) && extent.width == size.0
                && extent.height == size.1)
            &&& !same && before.blank_state is Committed ==> after.blank_state is Pending
            &&& before.blank_state !is Committed ==> after.blank_state == before.blank_state
            &&& after.pending_direct_frame == before.pending_direct_frame
            &&& after.content_presentation == before.content_presentation
            &&& final(binding).pending_present == old(binding).pending_present
        }),
{
}

/// The daemon is told every change of the metrics, once. A registered output pushes
/// its size and refresh rate where they differ from what was told last, and nothing
/// else; what was told when the output was registered counts.
pub proof fn changed_metrics_are_told_once(
    registering: &mut OutputBinding,
    binding: OutputBinding,
    size: (u32, u32),
    metrics: Option<(u32, u32, u32)>,
    pushing: &mut OutputBinding,
    again: Option<(u32, u32, u32)>,
)
    requires
        call_ensures(OutputBinding::register, (registering,), ()),
        binding == (OutputBinding {
            configured_size: binding.configured_size,
            refresh_mhz: binding.refresh_mhz,
            presenter: binding.presenter,
            ..*final(registering)
        }),
        call_ensures(OutputBinding::push_resize_if_registered, (&binding, size), metrics),
        *old(pushing) == binding,
        metrics is Some ==> call_ensures(
            OutputBinding::metrics_pushed,
            (pushing, metrics->0),
            (),
        ),
        metrics is None ==> *final(pushing) == binding,
        call_ensures(OutputBinding::push_resize_if_registered, (&*final(pushing), size), again),
        old(registering).configured_size is Some,
    ensures
        ({
            let told = (
                (old(registering).configured_size->0).0,
                (old(registering).configured_size->0).1,
                old(registering).refresh_mhz,
            );
            let present = (size.0, size.1, binding.refresh_mhz);
            &&& final(registering).registered
            &&& old(registering).connected ==> (metrics is Some <==> present != told)
            &&& !old(registering).connected ==> metrics is None
            &&& metrics is Some ==> metrics == Some(present)
            &&& again is None
        }),
{
}

/// An output that the daemon does not know, or has no connection to, pushes nothing.
pub proof fn unregistered_output_pushes_nothing(
    binding: OutputBinding,
    size: (u32, u32),
    metrics: Option<(u32, u32, u32)>,
)
    requires
        call_ensures(OutputBinding::push_resize_if_registered, (&binding, size), metrics),
        !binding.registered || !binding.connected,
    ensures
        metrics is None,
{
}

/// A surface is presented when it is due. What was asked for is due at once. After an
/// attempt that found something busy it is due at once again; after one that asks for
/// another frame, one refresh later and not before; and else not until something
/// changes.
pub proof fn presents_come_when_they_are_due(
    binding: &mut OutputBinding,
    result: PresentResult,
    now: u64,
    later: u64,
    due: bool,
    asked: &mut OutputBinding,
    asked_due: bool,
    failed: &mut OutputBinding,
    failed_due: bool,
)
    requires
        now <= later,
        now + 33_000_000 <= u64::MAX,
        call_ensures(OutputBinding::present_finished, (binding, result, now), ()),
        call_ensures(OutputBinding::present_due, (&*final(binding), later), due),
        call_ensures(OutputBinding::request_present, (asked,), ()),
        call_ensures(OutputBinding::present_due, (&*final(asked), later), asked_due),
        call_ensures(OutputBinding::present_failed, (failed,), ()),
        call_ensures(OutputBinding::present_due, (&*final(failed), later), failed_due),
    ensures
        asked_due,
        !failed_due,
        result is Pending ==> due,
        result == (PresentResult::Presented { redraw: false }) ==> !due,
        result == (PresentResult::Presented { redraw: true }) ==> {
            &&& later - now < 4_000_000 ==> !due
            &&& later - now >= 33_000_000 ==> due
            &&& old(binding).refresh_mhz > 0 && due && later - now < 33_000_000 ==> (later - now
                + 1) * old(binding).refresh_mhz > 1_000_000_000_000
            &&& old(binding).refresh_mhz > 0 && !due && later - now >= 4_000_000 ==> (later - now)
                * old(binding).refresh_mhz < 1_000_000_000_000
        },
        final(binding).presenter == old(binding).presenter,
{
    if old(binding).refresh_mhz > 0 {
        crate::schedule::period_is_one_refresh(old(binding).refresh_mhz);
        let period = redraw_period(old(binding).refresh_mhz);
        let rate = old(binding).refresh_mhz as int;
        let passed = later - now;
        if due && result == (PresentResult::Presented { redraw: true }) {
            assert(passed >= period);
            assert((passed + 1) * rate >= (period + 1) * rate) by (nonlinear_arith)
                requires
                    passed >= period,
                    rate > 0,
            ;
        }
        if !due && result == (PresentResult::Presented { redraw: true }) {
            assert(passed < period);
            assert(passed * rate < period * rate) by (nonlinear_arith)
                requires
                    passed < period,
                    rate > 0,
            ;
        }
    }
}

/// A session is started in one order: the connection is created, the device and what
/// the output can show are set, then the window state, and only then the output is
/// connected with its present size and rate. The daemon is told that the output blurs
/// and animates exactly where it can. Any failure gives the connection up with its
/// own code, and a session counts as started only with a descriptor to wait on.
pub proof fn session_starts_in_order(
    binding: &mut OutputBinding,
    phase: StartPhase,
    reply: StartReply,
    step: (StartPhase, StartAction),
)
    requires
        call_ensures(OutputBinding::start_display_session, (binding, phase, reply), step),
        match phase {
            StartPhase::Create => reply is Created,
            StartPhase::BindDevice | StartPhase::SetCaps | StartPhase::SetWindowState
            | StartPhase::Connect => reply is Returned,
            StartPhase::Handshake => reply is Advanced,
            StartPhase::Descriptor => reply is Descriptor,
            StartPhase::Finished => false,
        },
        old(binding).configured_size is Some,
    ensures
        match step.1 {
            StartAction::Create => false,
            StartAction::BindDevice => phase is Create && step.0 is BindDevice,
            StartAction::SetCaps(caps) => {
                &&& phase is BindDevice && step.0 is SetCaps
                &&& caps.pause_blur == old(binding).presenter.pause_blur_available
                &&& caps.transitions == (old(binding).presenter.pause_blur_available && old(
                    binding,
                ).presenter.transitions_available)
            },
            StartAction::SetWindowState => phase is SetCaps && step.0 is SetWindowState,
            StartAction::Connect { width, height, refresh_mhz } => {
                &&& phase is SetWindowState && step.0 is Connect
                &&& old(binding).configured_size == Some((width, height))
                &&& refresh_mhz == old(binding).refresh_mhz
            },
            StartAction::AdvanceHandshake => phase is Connect && step.0 is Handshake,
            StartAction::QueryDescriptor => phase is Handshake && step.0 is Descriptor,
            StartAction::Started => phase is Descriptor && step.0 is Finished && (
            reply matches StartReply::Descriptor(fd) && fd >= 0),
            StartAction::Fail(error) => phase is Create && step.0 is Finished && error
                is CreateFailed && reply == StartReply::Created(false),
            StartAction::Abandon(error) => {
                &&& step.0 is Finished
                &&& match phase {
                    StartPhase::BindDevice => error matches StartError::BindDeviceFailed(code)
                        && reply == StartReply::Returned(code) && code < 0,
                    StartPhase::SetCaps => error matches StartError::SetCapsFailed(code) && reply
                        == StartReply::Returned(code) && code < 0,
                    StartPhase::SetWindowState => error matches StartError::SetWindowStateFailed(
                        code,
                    ) && reply == StartReply::Returned(code) && code < 0,
                    StartPhase::Connect => error matches StartError::ConnectFailed(code) && reply
                        == StartReply::Returned(code) && code < 0,
                    StartPhase::Handshake => error is HandshakeFailed && reply
                        == StartReply::Advanced(false),
                    StartPhase::Descriptor => error is NoDescriptor && (
                    reply matches StartReply::Descriptor(fd) && fd < 0),
                    _ => false,
                }
            },
        },
        reply == StartReply::Created(true) ==> final(binding).connected,
        step.1 is Abandon ==> !final(binding).connected,
        reply is Returned || reply is Advanced || reply is Descriptor ==> (step.1 !is Abandon
            ==> final(binding).connected == old(binding).connected),
        final(binding).presenter == old(binding).presenter,
        final(binding).registered == old(binding).registered,
{
}

/// What the daemon configures is in force at once: the blur, the transition and the
/// generation that later images have to refer to. The surface is presented again where
/// something that shows changes, and only then. A snapshot without a configuration
/// forgets the session.
pub proof fn snapshot_is_taken_over(
    binding: &mut OutputBinding,
    generation: u64,
    pause: PausePresentation,
    transition: Option<TransitionPresentation>,
    now: u64,
    interpolated: Single,
    changed: bool,
)
    requires
        call_ensures(
            OutputBinding::apply_snapshot,
            (binding, generation, pause, transition, now, interpolated),
            changed,
        ),
    ensures
        ({
            let before = old(binding).presenter;
            let after = final(binding).presenter;
            &&& generation != 0 ==> {
                &&& after.pause_presentation == pause
                &&& after.pause_presentation_initialized
                &&& after.presentation_config_generation == generation
                &&& after.transition_presentation == transition
                &&& before.prepared_transition is Some ==> after.prepared_transition == transition
                &&& before.prepared_transition is None ==> after.prepared_transition is None
                &&& transition is Some ==> after.active_transition == before.active_transition
                &&& transition is None ==> after.active_transition is None
                &&& transition is None && (before.active_transition is Some
                    || before.prepared_transition is Some) ==> changed
                &&& before.pause_presentation.configured && !pause.configured
                    && before.blur_resources is Some ==> changed
                &&& after.blur_transition.target != before.blur_transition.target ==> changed
                &&& changed ==> final(binding).pending_present
                &&& !changed ==> final(binding).pending_present == old(binding).pending_present
                    && final(binding).next_redraw == old(binding).next_redraw
            }
            &&& generation == 0 ==> {
                &&& !changed
                &&& !final(binding).pending_present
                &&& !after.pause_presentation.configured && !after.pause_presentation.active
                &&& !after.pause_presentation_initialized
                &&& after.transition_presentation is None
                &&& after.prepared_transition is None
                &&& after.active_transition is None
                &&& after.content_presentation.committed is None
                &&& after.content_presentation.bound is None
                &&& after.content_presentation.submitted is None
            }
            &&& after.pending_direct_frame == before.pending_direct_frame
            &&& after.direct_binding == before.direct_binding
            &&& after.frames == before.frames
        }),
{
}

/// Pausing and going on moves the blur between none and the configured radius, and
/// nothing else; the surface is presented again exactly where the radius moves.
pub proof fn pausing_moves_the_blur(
    pausing: &mut OutputBinding,
    now: u64,
    interpolated: Single,
    changed: bool,
    going_on: &mut OutputBinding,
    later: u64,
    interpolated_later: Single,
    changed_back: bool,
)
    requires
        call_ensures(OutputBinding::apply_state, (pausing, true, now, interpolated), changed),
        *old(going_on) == *final(pausing),
        call_ensures(
            OutputBinding::apply_state,
            (going_on, false, later, interpolated_later),
            changed_back,
        ),
        old(pausing).presenter.pause_presentation.configured,
        old(pausing).presenter.pause_presentation.radius >= 1,
        old(pausing).presenter.blur_transition.target == (Single { bits: 0 }),
    ensures
        changed,
        changed_back,
        final(pausing).pending_present,
        final(going_on).pending_present,
        final(pausing).presenter.pause_presentation.active,
        !final(going_on).presenter.pause_presentation.active,
        final(pausing).presenter.blur_transition.target.steps() == Single::of_whole(
            old(pausing).presenter.pause_presentation.radius as nat,
        ).steps(),
        final(going_on).presenter.blur_transition.target == (Single { bits: 0 }),
        final(going_on).presenter.pause_presentation.radius
            == old(pausing).presenter.pause_presentation.radius,
        final(going_on).presenter.content_presentation
            == old(pausing).presenter.content_presentation,
{
    crate::single::whole_radius_is_not_near_zero(
        old(pausing).presenter.pause_presentation.radius,
    );
}

/// A lost session ends in black. What waits to be drawn is given back to the producer,
/// nothing of the session is shown again, and a black frame is asked for and due,
/// unless one is on screen already. Only the first loss asks for it.
pub proof fn lost_session_turns_black(
    binding: &mut OutputBinding,
    outcome: (Option<DirectRelease>, bool),
    now: u64,
    due: bool,
)
    requires
        call_ensures(OutputBinding::fall_back_to_black, (binding,), outcome),
        call_ensures(OutputBinding::present_due, (&*final(binding), now), due),
    ensures
        ({
            let before = old(binding).presenter;
            let after = final(binding).presenter;
            &&& before.blank_state is Committed || due
            &&& before.blank_state is Inactive <==> outcome.1
            &&& before.blank_state !is Committed ==> after.blank_state is Pending
            &&& before.blank_state is Committed ==> after.blank_state is Committed
            &&& after.pending_direct_frame is None
            &&& before.pending_direct_frame is None ==> outcome.0 is None
            &&& before.pending_direct_frame matches Some(frame) ==> (
            outcome.0 matches Some(release) && {
                &&& release.release_syncobj_fd == frame.release_syncobj_fd
                &&& release.buffer_generation == frame.buffer_generation
                &&& release.seq == frame.seq
            })
            &&& !final(binding).registered
            &&& final(binding).last_pushed_metrics is None
            &&& after.transition_presentation is None
            &&& after.prepared_transition is None
            &&& after.active_transition is None
            &&& !after.pause_presentation.configured
            &&& after.content_presentation.committed is None
            &&& after.content_presentation.submitted is None
            &&& after.blur_resources is Some ==> !after.blur_resources->0.base_valid
            &&& after.frames == before.frames
        }),
{
}

/// A session is tried again when its time has come, and only then: a fresh output at
/// once; after a failure after the delay, which doubles up to half a minute; after a
/// session that held for long enough after the first delay again.
pub proof fn session_is_tried_again_in_time(
    entry: &mut OutputEntry,
    now: u64,
    ended: Option<DisplaySession>,
    later: u64,
    due: bool,
)
    requires
        old(entry).session is Some,
        old(entry).reconnect.delay >= 2_000_000_000,
        old(entry).reconnect.delay <= 30_000_000_000,
        now + 30_000_000_000 <= u64::MAX,
        call_ensures(OutputEntry::end_session, (entry, now), ended),
        call_ensures(OutputEntry::session_due, (&*final(entry), later), due),
    ensures
        ({
            let session = old(entry).session->0;
            let stable = now >= session.started + 20_000_000_000;
            let delay = if stable {
                2_000_000_000
            } else {
                old(entry).reconnect.delay as int
            };
            &&& ended == old(entry).session
            &&& final(entry).session is None
            &&& due <==> old(entry).bound && later >= now + delay
            &&& 2 * delay <= 30_000_000_000 ==> final(entry).reconnect.delay == 2 * delay
            &&& 2 * delay > 30_000_000_000 ==> final(entry).reconnect.delay == 30_000_000_000
        }),
{
}

/// Events and window flags are sent to a session only while it can take them: pointer
/// events once the daemon knows the output, window flags until it is given up.
pub proof fn sessions_take_what_they_can(
    entry: OutputEntry,
    pointer: bool,
    window: bool,
    due: bool,
    now: u64,
)
    requires
        call_ensures(OutputEntry::takes_pointer, (&entry,), pointer),
        call_ensures(OutputEntry::takes_window_state, (&entry,), window),
        call_ensures(OutputEntry::session_due, (&entry, now), due),
    ensures
        entry.session is None ==> !pointer && !window,
        entry.session matches Some(session) ==> {
            &&& pointer <==> entry.bound && session.state is Ready
            &&& window <==> !(session.state is Retiring)
            &&& !due
        },
        !entry.bound ==> !due && !pointer,
{
}

/// A graphics surface has one owner. It is handed to a presenter once; from then on
/// the output neither destroys it nor hands it out again. One that no presenter got is
/// destroyed with the output, with its surface or with its device, and forgotten.
pub proof fn graphics_surface_has_one_owner(
    entry: &mut OutputEntry,
    has_runtime: bool,
    step: BindStep,
    bound: &mut OutputEntry,
    again: BindStep,
    closing: &mut OutputEntry,
    closed: OutputRelease,
    removed: OutputRelease,
    moving: &mut OutputEntry,
    moved: OutputRelease,
)
    requires
        call_ensures(OutputEntry::bind_step, (entry, has_runtime), step),
        *old(bound) == *final(entry),
        call_ensures(OutputEntry::bind_step, (bound, true), again),
        *old(closing) == *old(entry),
        call_ensures(OutputEntry::close_surface, (closing,), closed),
        call_ensures(OutputEntry::removal, (&*old(entry),), removed),
        *old(moving) == *old(entry),
        call_ensures(OutputEntry::release_for_rebuild, (moving,), moved),
    ensures
        ({
            let before = *old(entry);
            &&& before.bound ==> step is AlreadyBound && final(entry).vk_surface
                == before.vk_surface
            &&& !before.bound && !has_runtime ==> step is NoRuntime && final(entry).vk_surface
                == before.vk_surface
            &&& !before.bound && has_runtime ==> {
                &&& final(entry).vk_surface is None
                &&& before.vk_surface is None ==> step is NoSurface
                &&& before.vk_surface matches Some(surface) ==> step == (
                BindStep::CreatePresenter { surface })
            }
            &&& step is CreatePresenter ==> again is NoSurface
            &&& before.bound ==> closed.destroy_surface is None && removed.destroy_surface is None
            &&& !before.bound ==> closed.destroy_surface == before.vk_surface
                && removed.destroy_surface == before.vk_surface && final(closing).vk_surface is None
            &&& moved.destroy_surface == before.vk_surface && final(moving).vk_surface is None
            &&& closed.unregister == before.bound
            &&& moved.unregister == before.bound
            &&& closed.shut_session <==> before.bound && before.session is Some
            &&& moved.shut_session <==> before.bound && before.session is Some
            &&& removed.shut_session == closed.shut_session && removed.unregister
                == closed.unregister
            &&& !final(closing).bound && final(closing).session is None
                && !final(closing).has_surface && !final(closing).has_layer_surface && final(
                closing).fractional_scale_120 == 0
            &&& !final(moving).bound && final(moving).session is None
            &&& final(moving).has_surface == before.has_surface
            &&& final(moving).configured_size == before.configured_size
        }),
{
}

/// What a new device has for an output is taken over: a presenter, and then a session
/// is due at once; else the surface, to be configured.
pub proof fn rebuilt_output_goes_on(
    entry: &mut OutputEntry,
    has_presenter: bool,
    surface: Option<u64>,
    now: u64,
    due: bool,
)
    requires
        call_ensures(OutputEntry::adopt_rebuilt, (entry, has_presenter, surface, now), ()),
        call_ensures(OutputEntry::session_due, (&*final(entry), now), due),
    ensures
        has_presenter ==> final(entry).bound && final(entry).vk_surface == old(entry).vk_surface && (
        old(entry).session is None ==> due),
        !has_presenter ==> final(entry).bound == old(entry).bound && (surface is Some ==> final(
            entry).vk_surface == surface),
        final(entry).session == old(entry).session,
        final(entry).configured_size == old(entry).configured_size,
{
}

/// What the compositor tells of an output is taken over as it is told: a scale of at
/// least one, and the refresh rate of the mode in use where it has one.
pub proof fn told_metrics_are_taken_over(
    scaled: &mut OutputEntry,
    factor: i32,
    scale: i32,
    timed: &mut OutputEntry,
    is_current: bool,
    refresh: i32,
    taken: Option<u32>,
)
    requires
        call_ensures(OutputEntry::set_scale, (scaled, factor), scale),
        call_ensures(OutputEntry::set_mode, (timed, is_current, refresh), taken),
    ensures
        scale >= 1,
        factor >= 1 ==> scale == factor,
        factor < 1 ==> scale == 1,
        final(scaled).scale == scale,
        final(scaled).refresh_mhz == old(scaled).refresh_mhz,
        is_current && refresh > 0 ==> final(timed).refresh_mhz == refresh && (taken matches Some(
            rate,
        ) && rate == refresh),
        !is_current || refresh <= 0 ==> final(timed).refresh_mhz == old(timed).refresh_mhz && taken
            is None,
        final(timed).scale == old(timed).scale,
{
}

/// What an output has coming up is told to the event loop: a session that is given up,
/// a present, a redraw, and the time of the next session where one is missing. An
/// output without a presenter has nothing to present.
pub proof fn schedule_tells_what_comes_up(
    entry: OutputEntry,
    pending_present: bool,
    next_redraw: Option<u64>,
    schedule: OutputSchedule,
)
    requires
        call_ensures(OutputEntry::schedule, (&entry, pending_present, next_redraw), schedule),
    ensures
        schedule.retiring <==> (entry.session matches Some(session) && session.state is Retiring),
        entry.bound ==> schedule.pending_present == pending_present && schedule.next_redraw
            == next_redraw,
        !entry.bound ==> !schedule.pending_present && schedule.next_redraw is None
            && !schedule.awaits_session,
        entry.bound ==> (schedule.awaits_session <==> entry.session is None),
        schedule.awaits_session ==> schedule.reconnect_at == entry.reconnect.at,
{
}

/// A frame is shown only where it arrived whole: somebody is connected, the images are
/// there, the frame was made out, and the presenter took it. In every other case that
/// somebody is connected it is turned away, and the producer hears of it.
pub proof fn frames_are_shown_or_turned_away(
    connected: bool,
    has_images: bool,
    resolved: Option<bool>,
    stored: Option<bool>,
    step: ArrivalStep,
)
    requires
        call_ensures(frame_ready, (connected, has_images, resolved, stored), step),
    ensures
        step is Present <==> connected && has_images && resolved == Some(true) && stored == Some(
            true,
        ),
        step is Ignore <==> !connected,
        connected && !has_images ==> step is Discard,
        connected && resolved == Some(false) ==> step is Discard,
        connected && has_images && resolved is None ==> step is Resolve,
        connected && has_images && resolved == Some(true) && stored is None ==> step is Replace,
        connected && has_images && resolved == Some(true) && stored == Some(false) ==> step
            is Discard,
{
    if let Some(known) = resolved {
        assert(known || resolved == Some(false));
    }
    if let Some(taken) = stored {
        assert(taken || stored == Some(false));
    }
}

/// Images are of use only where they are of the graphics stack and there is one.
pub proof fn usable_images_exist(
    vulkan_backend: bool,
    image_count: u32,
    has_images: bool,
    usable: bool,
)
    requires
        call_ensures(binding_is_usable, (vulkan_backend, image_count, has_images), usable),
    ensures
        usable ==> vulkan_backend && has_images && image_count >= 1,
        !usable ==> !vulkan_backend || !has_images || image_count == 0,
{
}

/// A surface is created once, and only with what it takes; a device that cannot present
/// to it is chosen anew.
pub proof fn surface_is_brought_up_once(
    entry: &mut OutputEntry,
    has_viewport: bool,
    has_fractional_scale: bool,
    creation: SurfaceCreation,
    rebuild: bool,
    wanted: bool,
    wanted_after: bool,
    has_compositor: bool,
    has_layer_shell: bool,
)
    requires
        call_ensures(
            OutputEntry::wants_surface,
            (&*old(entry), has_compositor, has_layer_shell),
            wanted,
        ),
        call_ensures(
            OutputEntry::bring_up_surface,
            (entry, has_viewport, has_fractional_scale, creation),
            rebuild,
        ),
        call_ensures(
            OutputEntry::wants_surface,
            (&*final(entry), has_compositor, has_layer_shell),
            wanted_after,
        ),
    ensures
        wanted ==> has_compositor && has_layer_shell && !old(entry).has_surface,
        has_compositor && has_layer_shell && !old(entry).has_surface ==> wanted,
        !wanted_after,
        rebuild <==> creation is Refused,
        final(entry).has_viewport == has_viewport,
        final(entry).has_fractional_scale == has_fractional_scale,
        creation matches SurfaceCreation::Created(surface) ==> final(entry).vk_surface == Some(
            surface,
        ),
        creation !is Created ==> final(entry).vk_surface == old(entry).vk_surface,
{
}

/// Each thing that the compositor tells of an output is kept under its own name, and what
/// was told last counts.
pub proof fn told_metadata_is_kept(
    naming: &mut OutputEntry,
    name: String,
    describing: &mut OutputEntry,
    description: String,
    making: &mut OutputEntry,
    make: String,
    model: String,
    metadata: OutputMetadata<'_>,
)
    requires
        call_ensures(OutputEntry::set_name, (naming, name), ()),
        *old(describing) == *final(naming),
        call_ensures(OutputEntry::set_description, (describing, description), ()),
        *old(making) == *final(describing),
        call_ensures(OutputEntry::set_geometry, (making, make, model), ()),
        call_ensures(OutputEntry::metadata, (&*final(making),), metadata),
    ensures
        metadata.name is Some,
        metadata.name->0@ == name@,
        metadata.description is Some,
        metadata.description->0@ == description@,
        metadata.make is Some,
        metadata.make->0@ == make@,
        metadata.model is Some,
        metadata.model->0@ == model@,
        final(making).configured_size == old(naming).configured_size,
        final(making).scale == old(naming).scale,
        final(making).bound == old(naming).bound,
        final(making).session == old(naming).session,
{
    assert(metadata.told().name == text_of(metadata.name));
    assert(metadata.told().description == text_of(metadata.description));
    assert(metadata.told().make == text_of(metadata.make));
    assert(metadata.told().model == text_of(metadata.model));
}

/// What is recorded of an output is what it is from then on, and nothing else changes.
pub proof fn records_are_kept(
    scaling: &mut OutputEntry,
    scale: u32,
    sizing: &mut OutputEntry,
    size: (u32, u32),
    binding: &mut OutputEntry,
    starting: &mut OutputEntry,
    session: DisplaySession,
)
    requires
        call_ensures(OutputEntry::set_preferred_scale, (scaling, scale), ()),
        call_ensures(OutputEntry::set_configured_size, (sizing, size), ()),
        call_ensures(OutputEntry::set_bound, (binding,), ()),
        call_ensures(OutputEntry::begin_session, (starting, session), ()),
    ensures
        final(scaling).fractional_scale_120 == scale,
        final(scaling).scale == old(scaling).scale,
        final(scaling).configured_size == old(scaling).configured_size,
        final(sizing).configured_size == Some(size),
        final(sizing).fractional_scale_120 == old(sizing).fractional_scale_120,
        final(sizing).bound == old(sizing).bound,
        final(binding).bound,
        final(binding).configured_size == old(binding).configured_size,
        final(binding).session == old(binding).session,
        final(starting).session == Some(session),
        final(starting).reconnect == old(starting).reconnect,
        final(starting).bound == old(starting).bound,
{
}

/// A surface with a preferred scale is drawn unscaled, and its viewport maps it to the
/// logical size; what does not exist is not told.
pub proof fn preferred_scale_is_left_to_the_viewport(
    entry: OutputEntry,
    logical: (u32, u32),
    update: SurfaceUpdate,
)
    requires
        call_ensures(OutputEntry::preferred_scale_update, (&entry, logical), update),
    ensures
        update.buffer_scale is Some <==> entry.has_surface,
        update.buffer_scale matches Some(scale) ==> scale == 1,
        update.destination is Some <==> entry.has_viewport,
        update.destination matches Some((width, height)) ==> (logical.0 <= i32::MAX ==> width
            == logical.0) && (logical.1 <= i32::MAX ==> height == logical.1),
{
}

/// A session that could not be started is tried again after the delay in force, and that
/// delay is then twice as long, up to half a minute.
pub proof fn failed_start_is_tried_again(entry: &mut OutputEntry, now: u64)
    requires
        old(entry).wf(),
        now + crate::schedule::MAX_RECONNECT_DELAY_NS <= u64::MAX,
        call_ensures(OutputEntry::schedule_reconnect, (entry, now), ()),
    ensures
        final(entry).reconnect.at == now + old(entry).reconnect.delay,
        old(entry).reconnect.delay <= 15_000_000_000 ==> final(entry).reconnect.delay == 2 * old(
            entry).reconnect.delay,
        old(entry).reconnect.delay > 15_000_000_000 ==> final(entry).reconnect.delay
            == 30_000_000_000,
        final(entry).session == old(entry).session,
        final(entry).bound == old(entry).bound,
{
}

/// A bound output carries what is known of it: its size, its scale, its refresh rate and
/// its presenter, under the name and the identity that its metadata give; nothing of a
/// session is there yet.
pub proof fn bound_output_carries_what_is_known(
    name_prefix: &str,
    entry: OutputEntry,
    output: u32,
    presenter: WsiPresenter,
    size: (u32, u32),
    binding: OutputBinding,
    metadata: OutputMetadata<'_>,
    name: String,
    id: String,
)
    requires
        call_ensures(
            OutputBinding::make_output_binding,
            (name_prefix, &entry, output, presenter, size),
            binding,
        ),
        call_ensures(OutputEntry::metadata, (&entry,), metadata),
        call_ensures(display_name, (name_prefix, metadata.name, output), name),
        call_ensures(layer_instance_id, (&metadata, output), id),
    ensures
        binding.configured_size == Some(size),
        entry.scale >= 1 ==> binding.scale == entry.scale,
        entry.scale < 1 ==> binding.scale == 1,
        binding.fractional_scale_120 == entry.fractional_scale_120,
        binding.refresh_mhz == entry.refresh_mhz,
        binding.presenter == presenter,
        binding.display_name@ == name@,
        binding.instance_id@ == id@,
        !binding.connected,
        !binding.registered,
        binding.last_pushed_metrics is None,
        !binding.pending_present,
        binding.next_redraw is None,
{
}

/// A refresh rate is taken over and the size that is known is told again with it; an
/// output says what its presenter can do, and transitions need the blur's scene.
pub proof fn output_follows_its_presenter(
    refreshing: &mut OutputBinding,
    refresh_mhz: u32,
    size: Option<(u32, u32)>,
    binding: OutputBinding,
    caps: PresentationCaps,
    blur: bool,
    transitions: bool,
)
    requires
        call_ensures(OutputBinding::apply_refresh, (refreshing, refresh_mhz), size),
        call_ensures(OutputBinding::presentation_caps, (&binding,), caps),
        call_ensures(WsiPresenter::supports_pause_blur, (&binding.presenter,), blur),
        call_ensures(WsiPresenter::supports_transitions, (&binding.presenter,), transitions),
    ensures
        final(refreshing).refresh_mhz == refresh_mhz,
        size == old(refreshing).configured_size,
        final(refreshing).configured_size == old(refreshing).configured_size,
        final(refreshing).presenter == old(refreshing).presenter,
        caps.pause_blur == binding.presenter.pause_blur_available,
        caps.transitions <==> binding.presenter.pause_blur_available
            && binding.presenter.transitions_available,
        blur == caps.pause_blur,
        transitions == caps.transitions,
{
}

/// An output whose session is shut down has nothing of it left and asks for nothing; one
/// that gives up on its black frame does not ask for it any more; one whose connection
/// is gone has none.
pub proof fn shut_down_output_asks_for_nothing(
    shutting: &mut OutputBinding,
    giving_up: &mut OutputBinding,
    losing: &mut OutputBinding,
)
    requires
        call_ensures(OutputBinding::shutdown_display_session, (shutting,), ()),
        call_ensures(OutputBinding::give_up_blank, (giving_up,), ()),
        call_ensures(OutputBinding::disconnected, (losing,), ()),
    ensures
        has_no_session(final(shutting).presenter),
        !final(shutting).registered,
        !final(shutting).pending_present,
        final(shutting).next_redraw is None,
        final(shutting).last_pushed_metrics is None,
        final(shutting).configured_size == old(shutting).configured_size,
        final(shutting).presenter.frames@ == old(shutting).presenter.frames@,
        !final(giving_up).pending_present,
        final(giving_up).next_redraw is None,
        final(giving_up).presenter.blank_state is Inactive,
        final(giving_up).presenter.frames@ == old(giving_up).presenter.frames@,
        !final(losing).connected,
        final(losing).registered == old(losing).registered,
        final(losing).presenter == old(losing).presenter,
{
}

/// A new output has no surface, no size and no session, the plain scale and sixty frames
/// a second; its session is due as soon as it is presented to.
pub proof fn new_output_is_empty(now: u64, entry: OutputEntry)
    requires
        call_ensures(OutputEntry::new, (now,), entry),
    ensures
        !entry.has_surface,
        !entry.has_layer_surface,
        !entry.has_viewport,
        !entry.has_fractional_scale,
        !entry.bound,
        entry.session is None,
        entry.reconnect.at == now,
        entry.reconnect.delay == 2_000_000_000,
        entry.scale == 1,
        entry.fractional_scale_120 == 0,
        entry.vk_surface is None,
        entry.configured_size is None,
        entry.refresh_mhz == 60_000,
        entry.output_name is None,
        entry.output_description is None,
        entry.output_make is None,
        entry.output_model is None,
{
}

/// What is told of an output changes that and nothing else.
pub proof fn nothing_else_of_an_output_is_told(
    scaling: &mut OutputEntry,
    factor: i32,
    scale: i32,
    naming: &mut OutputEntry,
    name: String,
    describing: &mut OutputEntry,
    description: String,
    making: &mut OutputEntry,
    make: String,
    model: String,
    timing: &mut OutputEntry,
    is_current: bool,
    refresh: i32,
    taken: Option<u32>,
    preferring: &mut OutputEntry,
    preferred: u32,
    sizing: &mut OutputEntry,
    size: (u32, u32),
)
    requires
        call_ensures(OutputEntry::set_scale, (scaling, factor), scale),
        call_ensures(OutputEntry::set_name, (naming, name), ()),
        call_ensures(OutputEntry::set_description, (describing, description), ()),
        call_ensures(OutputEntry::set_geometry, (making, make, model), ()),
        call_ensures(OutputEntry::set_mode, (timing, is_current, refresh), taken),
        call_ensures(OutputEntry::set_preferred_scale, (preferring, preferred), ()),
        call_ensures(OutputEntry::set_configured_size, (sizing, size), ()),
    ensures
        *final(scaling) == (OutputEntry { scale: final(scaling).scale, ..*old(scaling) }),
        *final(naming) == (OutputEntry { output_name: Some(name), ..*old(naming) }),
        *final(describing) == (OutputEntry {
            output_description: Some(description),
            ..*old(describing)
        }),
        *final(making) == (OutputEntry {
            output_make: Some(make),
            output_model: Some(model),
            ..*old(making)
        }),
        *final(timing) == (OutputEntry { refresh_mhz: final(timing).refresh_mhz, ..*old(timing) }),
        *final(preferring) == (OutputEntry { fractional_scale_120: preferred, ..*old(preferring) }),
        *final(sizing) == (OutputEntry { configured_size: Some(size), ..*old(sizing) }),
{
}

/// What happens to an output changes what it is about and nothing else: its surface, its
/// presenter or its session.
pub proof fn nothing_else_of_an_output_changes(
    bringing: &mut OutputEntry,
    has_viewport: bool,
    has_fractional_scale: bool,
    creation: SurfaceCreation,
    rebuild: bool,
    handing: &mut OutputEntry,
    has_runtime: bool,
    step: BindStep,
    binding: &mut OutputEntry,
    closing: &mut OutputEntry,
    closed: OutputRelease,
    moving: &mut OutputEntry,
    moved: OutputRelease,
    adopting: &mut OutputEntry,
    has_presenter: bool,
    surface: Option<u64>,
    now: u64,
    starting: &mut OutputEntry,
    session: DisplaySession,
    ending: &mut OutputEntry,
    ended: Option<DisplaySession>,
    waiting: &mut OutputEntry,
)
    requires
        call_ensures(
            OutputEntry::bring_up_surface,
            (bringing, has_viewport, has_fractional_scale, creation),
            rebuild,
        ),
        call_ensures(OutputEntry::bind_step, (handing, has_runtime), step),
        call_ensures(OutputEntry::set_bound, (binding,), ()),
        call_ensures(OutputEntry::close_surface, (closing,), closed),
        call_ensures(OutputEntry::release_for_rebuild, (moving,), moved),
        call_ensures(OutputEntry::adopt_rebuilt, (adopting, has_presenter, surface, now), ()),
        call_ensures(OutputEntry::begin_session, (starting, session), ()),
        call_ensures(OutputEntry::end_session, (ending, now), ended),
        call_ensures(OutputEntry::schedule_reconnect, (waiting, now), ()),
    ensures
        *final(bringing) == (OutputEntry {
            has_surface: true,
            has_layer_surface: true,
            has_viewport,
            has_fractional_scale,
            vk_surface: final(bringing).vk_surface,
            ..*old(bringing)
        }),
        creation !is Created ==> final(bringing).vk_surface == old(bringing).vk_surface,
        creation matches SurfaceCreation::Created(handle) ==> final(bringing).vk_surface == Some(
            handle,
        ),
        *final(handing) == (OutputEntry { vk_surface: final(handing).vk_surface, ..*old(handing) }),
        *final(binding) == (OutputEntry { bound: true, ..*old(binding) }),
        *final(closing) == (OutputEntry {
            has_surface: false,
            has_layer_surface: false,
            has_fractional_scale: false,
            fractional_scale_120: 0,
            bound: false,
            session: None,
            vk_surface: final(closing).vk_surface,
            ..*old(closing)
        }),
        *final(moving) == (OutputEntry {
            bound: false,
            session: None,
            vk_surface: None,
            ..*old(moving)
        }),
        *final(adopting) == (OutputEntry {
            bound: final(adopting).bound,
            reconnect: final(adopting).reconnect,
            vk_surface: final(adopting).vk_surface,
            ..*old(adopting)
        }),
        !has_presenter && surface is None ==> *final(adopting) == *old(adopting),
        *final(starting) == (OutputEntry { session: Some(session), ..*old(starting) }),
        *final(ending) == (OutputEntry {
            session: None,
            reconnect: final(ending).reconnect,
            ..*old(ending)
        }),
        old(ending).session is None ==> *final(ending) == *old(ending),
        *final(waiting) == (OutputEntry { reconnect: final(waiting).reconnect, ..*old(waiting) }),
{
}

/// What an output is told, its presenter is told: a size, a configuration, whether the
/// wallpaper is paused. The surface is presented again exactly where the presenter asks
/// for it, and nothing else of the output changes.
pub proof fn presenter_hears_what_its_output_hears(
    sizing: &mut OutputBinding,
    scale: i32,
    fractional_scale_120: u32,
    size: (u32, u32),
    resized: &mut WsiPresenter,
    pausing: &mut OutputBinding,
    active: bool,
    now: u64,
    interpolated: Single,
    changed: bool,
    paused: &mut WsiPresenter,
    paused_changed: bool,
    configuring: &mut OutputBinding,
    generation: u64,
    pause: PausePresentation,
    transition: Option<TransitionPresentation>,
    configured_changed: bool,
    blurring: &mut WsiPresenter,
    blur_changed: bool,
    animating: &mut WsiPresenter,
    dropped: bool,
)
    requires
        call_ensures(
            OutputBinding::apply_configure,
            (sizing, scale, fractional_scale_120, size),
            (),
        ),
        *old(resized) == old(sizing).presenter,
        call_ensures(WsiPresenter::request_resize, (resized, size.0, size.1), ()),
        call_ensures(OutputBinding::apply_state, (pausing, active, now, interpolated), changed),
        *old(paused) == old(pausing).presenter,
        call_ensures(
            WsiPresenter::apply_pause_state,
            (paused, active, now, interpolated),
            paused_changed,
        ),
        generation != 0,
        call_ensures(
            OutputBinding::apply_snapshot,
            (configuring, generation, pause, transition, now, interpolated),
            configured_changed,
        ),
        *old(blurring) == old(configuring).presenter,
        call_ensures(
            WsiPresenter::apply_pause_snapshot,
            (blurring, pause, now, interpolated),
            blur_changed,
        ),
        *old(animating) == *final(blurring),
        call_ensures(
            WsiPresenter::apply_transition_snapshot,
            (animating, generation, transition),
            dropped,
        ),
    ensures
        final(sizing).presenter == *final(resized),
        *final(sizing) == (OutputBinding {
            scale,
            fractional_scale_120,
            configured_size: Some(size),
            presenter: final(sizing).presenter,
            ..*old(sizing)
        }),
        final(pausing).presenter == *final(paused),
        changed == paused_changed,
        *final(pausing) == (OutputBinding {
            presenter: final(pausing).presenter,
            pending_present: old(pausing).pending_present || changed,
            next_redraw: final(pausing).next_redraw,
            ..*old(pausing)
        }),
        !changed ==> final(pausing).next_redraw == old(pausing).next_redraw,
        final(configuring).presenter == *final(animating),
        configured_changed == (blur_changed || dropped),
        *final(configuring) == (OutputBinding {
            presenter: final(configuring).presenter,
            pending_present: old(configuring).pending_present || configured_changed,
            next_redraw: final(configuring).next_redraw,
            ..*old(configuring)
        }),
{
}

/// A lost session is ended as its presenter ends it: the black frame is asked for, the
/// frame that waits is given up, and nothing but what belongs to the session changes.
pub proof fn lost_session_ends_with_its_presenter(
    losing: &mut OutputBinding,
    outcome: (Option<DirectRelease>, bool),
    giving_up: &mut WsiPresenter,
    release: Option<DirectRelease>,
    blanking: &mut WsiPresenter,
    newly: bool,
    shutting: &mut OutputBinding,
    resetting: &mut WsiPresenter,
)
    requires
        call_ensures(OutputBinding::fall_back_to_black, (losing,), outcome),
        *old(giving_up) == old(losing).presenter,
        call_ensures(WsiPresenter::discard_pending_direct_frame, (giving_up,), release),
        *old(blanking) == *final(giving_up),
        call_ensures(WsiPresenter::request_blank, (blanking,), newly),
        call_ensures(OutputBinding::shutdown_display_session, (shutting,), ()),
        *old(resetting) == old(shutting).presenter,
        call_ensures(WsiPresenter::reset_display_session, (resetting,), ()),
    ensures
        final(losing).presenter == *final(blanking),
        outcome == (release, newly),
        *final(losing) == (OutputBinding {
            registered: false,
            next_redraw: None,
            last_pushed_metrics: None,
            pending_present: final(losing).pending_present,
            presenter: final(losing).presenter,
            ..*old(losing)
        }),
        final(losing).pending_present <==> old(losing).pending_present || !(old(
            losing).presenter.blank_state is Committed),
        final(shutting).presenter == *final(resetting),
        *final(shutting) == (OutputBinding {
            registered: false,
            pending_present: false,
            next_redraw: None,
            last_pushed_metrics: None,
            presenter: final(shutting).presenter,
            ..*old(shutting)
        }),
{
}

/// What happens to a bound output changes what it is about and nothing else.
pub proof fn nothing_else_of_a_bound_output_changes(
    registering: &mut OutputBinding,
    pushing: &mut OutputBinding,
    metrics: (u32, u32, u32),
    refreshing: &mut OutputBinding,
    refresh_mhz: u32,
    size: Option<(u32, u32)>,
    asking: &mut OutputBinding,
    finishing: &mut OutputBinding,
    result: PresentResult,
    now: u64,
    failing: &mut OutputBinding,
    losing: &mut OutputBinding,
    starting: &mut OutputBinding,
    phase: StartPhase,
    reply: StartReply,
    step: (StartPhase, StartAction),
    giving_up: &mut OutputBinding,
)
    requires
        call_ensures(OutputBinding::register, (registering,), ()),
        call_ensures(OutputBinding::metrics_pushed, (pushing, metrics), ()),
        call_ensures(OutputBinding::apply_refresh, (refreshing, refresh_mhz), size),
        call_ensures(OutputBinding::request_present, (asking,), ()),
        call_ensures(OutputBinding::present_finished, (finishing, result, now), ()),
        call_ensures(OutputBinding::present_failed, (failing,), ()),
        call_ensures(OutputBinding::disconnected, (losing,), ()),
        call_ensures(OutputBinding::start_display_session, (starting, phase, reply), step),
        call_ensures(OutputBinding::give_up_blank, (giving_up,), ()),
    ensures
        *final(registering) == (OutputBinding {
            registered: true,
            last_pushed_metrics: final(registering).last_pushed_metrics,
            ..*old(registering)
        }),
        *final(pushing) == (OutputBinding {
            last_pushed_metrics: Some(metrics),
            ..*old(pushing)
        }),
        *final(refreshing) == (OutputBinding { refresh_mhz, ..*old(refreshing) }),
        *final(asking) == (OutputBinding {
            pending_present: true,
            next_redraw: None,
            ..*old(asking)
        }),
        *final(finishing) == (OutputBinding {
            pending_present: final(finishing).pending_present,
            next_redraw: final(finishing).next_redraw,
            ..*old(finishing)
        }),
        *final(failing) == (OutputBinding {
            pending_present: false,
            next_redraw: None,
            ..*old(failing)
        }),
        *final(losing) == (OutputBinding { connected: false, ..*old(losing) }),
        *final(starting) == (OutputBinding {
            connected: final(starting).connected,
            ..*old(starting)
        }),
        *final(giving_up) == (OutputBinding {
            pending_present: false,
            next_redraw: None,
            presenter: final(giving_up).presenter,
            ..*old(giving_up)
        }),
        final(giving_up).presenter == (WsiPresenter {
            blank_state: crate::blank::BlankState::Inactive,
            ..old(giving_up).presenter
        }),
{
}

} // verus!
