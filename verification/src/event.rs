//! How the application answers the events of its window and event loop.
use vstd::prelude::*;

verus! {

/// Where the application runs.
#[derive(Clone, Copy, Debug, PartialEq, Eq, Structural)]
pub enum Platform {
    /// A desktop window.
    Native,
    /// A canvas in a web page.
    Web,
}

/// The name of the page event that asks the canvas to fit its container again.
pub const CANVAS_SIZE_NEED_CHANGE: &'static str = "canvas_size_need_change";

/// An event of the window or of the event loop, with the values the
/// application reads from it.
#[derive(Debug)]
pub enum AppEvent {
    /// The window was asked to close.
    CloseRequested,
    /// A key changed state: whether it was pressed, and whether it is Escape.
    KeyboardInput { pressed: bool, escape: bool },
    /// The window now has this inner size, in physical pixels.
    Resized { width: u32, height: u32 },
    /// The scale factor changed and the window got this inner size.
    ScaleFactorChanged { width: u32, height: u32 },
    /// Any other window event.
    OtherWindowEvent,
    /// An event that the page sent, by its name.
    PageEvent { ty: String },
    /// A window asks to be redrawn.
    RedrawRequested { window_id: u64 },
    /// All redraw requests of this loop iteration were handled.
    RedrawEventsCleared,
    /// Any other event of the loop.
    Other,
}

/// What the application does in answer to an event.
#[derive(Clone, Copy, Debug, PartialEq, Eq, Structural)]
pub enum AppAction {
    /// Leave the event loop.
    Exit,
    /// Resize the surface to this size; on the web, tell the page afterwards.
    Resize { width: u32, height: u32, notify_page: bool },
    /// Resize the canvas to fit its container in the page.
    FitCanvasToContainer,
    /// Render a frame; on the web, also record its timings.
    Render { record_frame_stats: bool },
    /// Ask for another redraw.
    RequestRedraw,
    /// Nothing.
    Nothing,
}

/// The answer to one event: whether the UI layer sees it, and the action.
#[derive(Clone, Copy, Debug, PartialEq, Eq, Structural)]
pub struct EventResponse {
    pub forward_to_ui: bool,
    pub action: AppAction,
}

impl AppEvent {
    /// Whether this is an event of the window (as opposed to one of the loop).
    pub open spec fn is_window_event(self) -> bool {
        match self {
            AppEvent::CloseRequested => true,
            AppEvent::KeyboardInput { .. } => true,
            AppEvent::Resized { .. } => true,
            AppEvent::ScaleFactorChanged { .. } => true,
            AppEvent::OtherWindowEvent => true,
            _ => false,
        }
    }
}

/// The answer of the application on `platform` to `event`, when the window it
/// draws into has id `current_window`.
pub open spec fn respond(platform: Platform, event: AppEvent, current_window: u64) -> EventResponse {
    let web = platform == Platform::Web;
    let action = match event {
        AppEvent::CloseRequested => AppAction::Exit,
        AppEvent::KeyboardInput { pressed, escape } => if pressed && escape {
            AppAction::Exit
        } else {
            AppAction::Nothing
        },
        AppEvent::Resized { width, height } => if width == 0 || height == 0 {
            AppAction::Nothing
        } else {
            AppAction::Resize { width, height, notify_page: web }
        },
        AppEvent::ScaleFactorChanged { width, height } => AppAction::Resize {
            width,
            height,
            notify_page: web,
        },
        AppEvent::OtherWindowEvent => AppAction::Nothing,
        AppEvent::PageEvent { ty } => if web && ty@ == CANVAS_SIZE_NEED_CHANGE@ {
            AppAction::FitCanvasToContainer
        } else {
            AppAction::Nothing
        },
        AppEvent::RedrawRequested { window_id } => if window_id == current_window {
            AppAction::Render { record_frame_stats: web }
        } else {
            AppAction::Nothing
        },
        AppEvent::RedrawEventsCleared => AppAction::RequestRedraw,
        AppEvent::Other => AppAction::Nothing,
    };
    EventResponse { forward_to_ui: event.is_window_event(), action }
}

/// Decides what the application on `platform` does with `event`, when the
/// window it draws into has id `current_window`.
pub fn handle_event(platform: Platform, event: &AppEvent, current_window: u64) -> (response:
    EventResponse)
    ensures
        response == respond(platform, *event, current_window),
{
    let web = match platform {
        Platform::Web => true,
        Platform::Native => false,
    };
    match event {
        AppEvent::CloseRequested => EventResponse { forward_to_ui: true, action: AppAction::Exit },
        AppEvent::KeyboardInput { pressed, escape } => {
            let action = if *pressed && *escape {
                AppAction::Exit
            } else {
                AppAction::Nothing
            };
            EventResponse { forward_to_ui: true, action }
        },
        AppEvent::Resized { width, height } => {
            let action = if *width == 0 || *height == 0 {
                AppAction::Nothing
            } else {
                AppAction::Resize { width: *width, height: *height, notify_page: web }
            };
            EventResponse { forward_to_ui: true, action }
        },
        AppEvent::ScaleFactorChanged { width, height } => EventResponse {
            forward_to_ui: true,
            action: AppAction::Resize { width: *width, height: *height, notify_page: web },
        },
        AppEvent::OtherWindowEvent => EventResponse {
            forward_to_ui: true,
            action: AppAction::Nothing,
        },
        AppEvent::PageEvent { ty } => {
            let expected = String::from_str(CANVAS_SIZE_NEED_CHANGE);
            let action = if web && ty.eq(&expected) {
                AppAction::FitCanvasToContainer
            } else {
                AppAction::Nothing
            };
            EventResponse { forward_to_ui: false, action }
        },
        AppEvent::RedrawRequested { window_id } => {
            let action = if *window_id == current_window {
                AppAction::Render { record_frame_stats: web }
            } else {
                AppAction::Nothing
            };
            EventResponse { forward_to_ui: false, action }
        },
        AppEvent::RedrawEventsCleared => EventResponse {
            forward_to_ui: false,
            action: AppAction::RequestRedraw,
        },
        AppEvent::Other => EventResponse { forward_to_ui: false, action: AppAction::Nothing },
    }
}


/// The size, in physical pixels, the render surface is configured with.
#[derive(Clone, Copy, Debug, PartialEq, Eq, Structural)]
pub struct SurfaceSize {
    pub width: u32,
    pub height: u32,
}

impl SurfaceSize {
    /// Whether a window of size `width` x `height` needs the surface, and what
    /// depends on its size, to be rebuilt.
    pub open spec fn needs_rebuild(self, width: u32, height: u32) -> bool {
        !(self.width == width && self.height == height)
    }

    /// A surface of the given size.
    pub fn new(width: u32, height: u32) -> (size: SurfaceSize)
        ensures
            size.width == width,
            size.height == height,
    {
        SurfaceSize { width, height }
    }

    /// Takes the size the window now has. Returns whether the surface, and the
    /// textures and uniforms tied to its size, must be rebuilt: only when the
    /// size differs from the configured one.
    pub fn resize(&mut self, width: u32, height: u32) -> (rebuild: bool)
        ensures
            rebuild == old(self).needs_rebuild(width, height),
            rebuild <==> (old(self).width != width || old(self).height != height),
            final(self).width == width,
            final(self).height == height,
    {
        if self.width == width && self.height == height {
            return false;
        }
        self.width = width;
        self.height = height;
        true
    }
}

/// Closing the window, or pressing Escape, ends the application, on either
/// platform and whatever window is current.
pub proof fn lemma_close_or_escape_exits(platform: Platform, current_window: u64)
    ensures
        respond(platform, AppEvent::CloseRequested, current_window).action == AppAction::Exit,
        respond(
            platform,
            AppEvent::KeyboardInput { pressed: true, escape: true },
            current_window,
        ).action == AppAction::Exit,
{
}

/// No other key, and no key release, ends the application.
pub proof fn lemma_only_escape_press_exits(
    platform: Platform,
    pressed: bool,
    escape: bool,
    current_window: u64,
)
    ensures
        (respond(platform, AppEvent::KeyboardInput { pressed, escape }, current_window).action
            == AppAction::Exit) <==> (pressed && escape),
{
}

/// A window resized to zero width or height (minimized) leaves the surface as
/// it is.
pub proof fn lemma_zero_size_is_ignored(
    platform: Platform,
    width: u32,
    height: u32,
    current_window: u64,
)
    requires
        width == 0 || height == 0,
    ensures
        respond(platform, AppEvent::Resized { width, height }, current_window).action
            == AppAction::Nothing,
{
}

/// Only the window the application draws into is rendered.
pub proof fn lemma_renders_only_current_window(
    platform: Platform,
    window_id: u64,
    current_window: u64,
)
    ensures
        respond(platform, AppEvent::RedrawRequested { window_id }, current_window).action
            is Render <==> window_id == current_window,
{
}

/// Every window event, and no other event, reaches the UI layer.
pub proof fn lemma_window_events_reach_ui(
    platform: Platform,
    event: AppEvent,
    current_window: u64,
)
    ensures
        respond(platform, event, current_window).forward_to_ui == event.is_window_event(),
{
}

/// Once a loop iteration has handled its redraws, another redraw is always
/// requested, so the scene is drawn continuously.
pub proof fn lemma_redraws_continuously(platform: Platform, current_window: u64)
    ensures
        respond(platform, AppEvent::RedrawEventsCleared, current_window).action
            == AppAction::RequestRedraw,
{
}

/// The page is told about a resize, and frame timings are recorded, on the
/// web only.
pub proof fn lemma_page_hooks_only_on_web(platform: Platform, event: AppEvent, current_window: u64)
    ensures
        (respond(platform, event, current_window).action is Resize) ==> (respond(
            platform,
            event,
            current_window,
        ).action->notify_page == (platform == Platform::Web)),
        (respond(platform, event, current_window).action is Render) ==> (respond(
            platform,
            event,
            current_window,
        ).action->record_frame_stats == (platform == Platform::Web)),
        (platform == Platform::Native) ==> (respond(platform, event, current_window).action
            != AppAction::FitCanvasToContainer),
{
}

/// A resize to a positive size is applied with exactly that size.
pub proof fn lemma_positive_resize_applied(
    platform: Platform,
    width: u32,
    height: u32,
    current_window: u64,
)
    requires
        width > 0,
        height > 0,
    ensures
        respond(platform, AppEvent::Resized { width, height }, current_window).action == (
        AppAction::Resize { width, height, notify_page: platform == Platform::Web }),
{
}

/// Resizing the surface to the size it already has rebuilds nothing; so after
/// one resize, a second to the same size is free.
pub proof fn lemma_resize_is_idempotent(size: SurfaceSize, width: u32, height: u32)
    ensures
        (SurfaceSize { width, height }).needs_rebuild(width, height) == false,
        size.needs_rebuild(size.width, size.height) == false,
{
}

/// The surface needs rebuilding exactly when the window's width or its height
/// differs from the configured one; a change of either alone is enough.
pub proof fn lemma_rebuild_iff_size_differs(size: SurfaceSize, width: u32, height: u32)
    ensures
        size.needs_rebuild(width, height) <==> (size.width != width || size.height != height),
{
}

/// The application leaves its event loop only when the window is asked to
/// close or Escape is pressed, on either platform.
pub proof fn lemma_exit_only_on_close_or_escape(platform: Platform, event: AppEvent, current_window: u64)
    ensures
        (respond(platform, event, current_window).action == AppAction::Exit) <==> (
        event is CloseRequested || (event is KeyboardInput && event->pressed && event->escape)),
        respond(platform, AppEvent::OtherWindowEvent, current_window).action == AppAction::Nothing,
        respond(platform, AppEvent::Other, current_window).action == AppAction::Nothing,
{
}

/// A surface resize is only ever asked for by a resize of the window or by a
/// change of scale factor, and always with the size the window reports:
/// width as width, height as height.
pub proof fn lemma_resize_only_with_reported_size(
    platform: Platform,
    event: AppEvent,
    current_window: u64,
)
    ensures
        (respond(platform, event, current_window).action is Resize) ==> ((event is Resized
            || event is ScaleFactorChanged) && respond(platform, event, current_window).action
            == (AppAction::Resize {
            width: if event is Resized {
                event->Resized_width
            } else {
                event->ScaleFactorChanged_width
            },
            height: if event is Resized {
                event->Resized_height
            } else {
                event->ScaleFactorChanged_height
            },
            notify_page: platform == Platform::Web,
        })),
{
}

/// A change of scale factor resizes the surface to exactly the new inner size,
/// whatever that size is, on both platforms.
pub proof fn lemma_scale_change_resizes_to_new_size(
    platform: Platform,
    width: u32,
    height: u32,
    current_window: u64,
)
    ensures
        respond(platform, AppEvent::ScaleFactorChanged { width, height }, current_window).action
            == (AppAction::Resize { width, height, notify_page: platform == Platform::Web }),
        respond(
            platform,
            AppEvent::ScaleFactorChanged { width, height },
            current_window,
        ).action->Resize_width == width,
        respond(
            platform,
            AppEvent::ScaleFactorChanged { width, height },
            current_window,
        ).action->Resize_height == height,
{
}

/// Each other action has one source: rendering comes only from a redraw
/// request for the current window, another redraw is requested only after
/// the loop cleared its redraws, and the canvas is fitted only on a web page
/// event with the expected name. Events that are not window events never
/// reach the UI layer, and the window events always do.
pub proof fn lemma_action_sources(platform: Platform, event: AppEvent, current_window: u64)
    ensures
        (respond(platform, event, current_window).action is Render) <==> (
        event is RedrawRequested && event->window_id == current_window),
        (respond(platform, event, current_window).action == AppAction::RequestRedraw) <==> (
        event is RedrawEventsCleared),
        (respond(platform, event, current_window).action == AppAction::FitCanvasToContainer)
            <==> (platform == Platform::Web && event is PageEvent && event->ty@
            == CANVAS_SIZE_NEED_CHANGE@),
        respond(platform, event, current_window).forward_to_ui <==> (event is CloseRequested
            || event is KeyboardInput || event is Resized || event is ScaleFactorChanged
            || event is OtherWindowEvent),
{
}

} // verus!
