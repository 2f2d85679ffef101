use vstd::prelude::*;

use crate::input::{key_direction, CameraController, Direction, ElementState, KeyInput};

verus! {

/// A size in physical pixels.
#[derive(Clone, Copy, Debug, PartialEq, Eq, Structural)]
pub struct Size {
    pub width: u32,
    pub height: u32,
}

impl Size {
    /// Whether either side is zero, as for a minimised window.
    pub open spec fn is_empty(self) -> bool {
        self.width == 0 || self.height == 0
    }
}

/// The size with each side raised to at least one pixel.
pub open spec fn at_least_one_pixel(s: Size) -> Size {
    Size {
        width: if s.width == 0 { 1 } else { s.width },
        height: if s.height == 0 { 1 } else { s.height },
    }
}

/// What a frame does.
#[derive(Clone, Copy, Debug, PartialEq, Eq, Structural)]
pub enum RenderStep {
    /// The window has no area: nothing is drawn.
    Skip,
    /// Draw the frame. When `reconfigure` holds, the surface must first be
    /// configured to the state's `config` size and the depth texture recreated;
    /// when `update_title` holds, the window title shows the frame rate.
    Draw { reconfigure: bool, update_title: bool },
}

/// A window event, as far as the application reacts to it.
#[derive(Clone, Copy, Debug, PartialEq, Eq, Structural)]
pub enum WindowInput {
    KeyboardInput(KeyInput),
    CloseRequested,
    Resized(Size),
    RedrawRequested,
    Other,
}

/// What the event loop does after a window event.
#[derive(Clone, Copy, Debug, PartialEq, Eq, Structural)]
pub enum EventResponse {
    /// Nothing more to do.
    Ignored,
    /// A keyboard event was recorded; the flag says whether it moved the camera.
    KeyHandled(bool),
    /// Leave the event loop.
    Exit,
    /// The window was minimised; its size was not recorded.
    Minimized,
    /// The window was resized to the given size, and the size was recorded.
    Resized(Size),
    /// Update the scene, render a frame and request the next redraw.
    Redraw,
}

/// The application's state apart from its graphics resources: the window
/// size, whether the surface must be reconfigured for it, the surface's
/// configured size, the frames counted since the frame rate was last
/// computed, and the held movement keys.
#[derive(Clone, Copy, Debug, PartialEq, Eq, Structural)]
pub struct AppState {
    pub size: Size,
    pub size_changed: bool,
    pub config: Size,
    pub frame_count: u32,
    pub camera_controller: CameraController,
}

impl AppState {
    /// Whenever no resize is pending, the surface is configured to the window size.
    pub open spec fn wf(self) -> bool {
        !self.size_changed ==> self.config == self.size
    }

    /// The state after the window reports the size `new_size`.
    pub open spec fn resized(self, new_size: Size) -> AppState {
        if new_size == self.size {
            self
        } else {
            AppState { size: new_size, size_changed: true, ..self }
        }
    }

    /// The state after the surface has been brought up to date with the window size.
    pub open spec fn surface_resized(self) -> AppState {
        if self.size_changed {
            AppState { config: self.size, size_changed: false, ..self }
        } else {
            self
        }
    }

    /// The state after counting one frame, `elapsed_secs` whole seconds after
    /// the frame rate was last computed.
    pub open spec fn counted_frame(self, elapsed_secs: u64) -> AppState {
        if elapsed_secs >= 1 {
            AppState { frame_count: 0, ..self }
        } else {
            AppState { frame_count: (self.frame_count + 1) as u32, ..self }
        }
    }

    /// The state after a keyboard event.
    pub open spec fn keyed(self, e: KeyInput) -> AppState {
        AppState { camera_controller: self.camera_controller.apply_event(e), ..self }
    }

    /// The state for a new window of size `window_size`; a side of zero
    /// pixels is raised to one.
    pub fn new(window_size: Size) -> (st: AppState)
        ensures
            st.size == at_least_one_pixel(window_size),
            window_size.width > 0 ==> st.size.width == window_size.width,
            window_size.width == 0 ==> st.size.width == 1,
            window_size.height > 0 ==> st.size.height == window_size.height,
            window_size.height == 0 ==> st.size.height == 1,
            st.config == st.size,
            !st.size_changed,
            st.frame_count == 0,
            st.camera_controller == CameraController::new_spec(),
            st.wf(),
    {
        let width = if window_size.width == 0 { 1 } else { window_size.width };
        let height = if window_size.height == 0 { 1 } else { window_size.height };
        let size = Size { width, height };
        AppState {
            size,
            size_changed: false,
            config: size,
            frame_count: 0,
            camera_controller: CameraController::new(),
        }
    }

    /// Records a keyboard event in the camera controller. Returns whether the
    /// key moves the camera.
    pub fn keyboard_input(&mut self, event: &KeyInput) -> (handled: bool)
        ensures
            handled == key_direction(*event) is Some,
            *final(self) == old(self).keyed(*event),
            final(self).camera_controller == old(self).camera_controller.apply_event(*event),
            final(self).size == old(self).size,
            final(self).config == old(self).config,
            final(self).size_changed == old(self).size_changed,
            final(self).frame_count == old(self).frame_count,
            old(self).wf() ==> final(self).wf(),
    {
        self.camera_controller.process_events(event)
    }

    /// Records a new window size. The same size as before changes nothing;
    /// another size is recorded and marks the surface for reconfiguration.
    pub fn set_window_resized(&mut self, new_size: Size)
        ensures
            *final(self) == old(self).resized(new_size),
            new_size == old(self).size ==> *final(self) == *old(self),
            new_size != old(self).size ==> {
                &&& final(self).size == new_size
                &&& final(self).size_changed
                &&& final(self).config == old(self).config
                &&& final(self).frame_count == old(self).frame_count
                &&& final(self).camera_controller == old(self).camera_controller
            },
            old(self).wf() ==> final(self).wf(),
    {
        if new_size == self.size {
            return;
        }
        self.size = new_size;
        self.size_changed = true;
    }

    /// When a resize is pending, sets the surface configuration to the window
    /// size and clears the pending flag. Returns whether this happened, in
    /// which case the caller must configure the surface and recreate the
    /// depth texture.
    pub fn resize_surface_if_needed(&mut self) -> (reconfigure: bool)
        ensures
            reconfigure == old(self).size_changed,
            *final(self) == old(self).surface_resized(),
            old(self).wf() ==> final(self).wf(),
    {
        if self.size_changed {
            self.config = self.size;
            self.size_changed = false;
            true
        } else {
            false
        }
    }

    /// Counts one frame. When at least one whole second has passed since the
    /// frame rate was last computed, returns the number of frames in that
    /// span (this one included) and starts counting again from zero.
    pub fn update(&mut self, elapsed_secs: u64) -> (frames: Option<u32>)
        requires
            old(self).frame_count < u32::MAX,
        ensures
            *final(self) == old(self).counted_frame(elapsed_secs),
            frames == (if elapsed_secs >= 1 {
                Some((old(self).frame_count + 1) as u32)
            } else {
                None::<u32>
            }),
            old(self).wf() ==> final(self).wf(),
    {
        self.frame_count = self.frame_count + 1;
        if elapsed_secs >= 1 {
            let frames = self.frame_count;
            self.frame_count = 0;
            Some(frames)
        } else {
            None
        }
    }

    /// Decides what a frame does. A window without area draws nothing and
    /// changes nothing. Otherwise a pending resize is applied first, and the
    /// title is updated when the frame rate was just computed.
    pub fn render(&mut self) -> (step: RenderStep)
        ensures
            old(self).size.is_empty() ==> step == RenderStep::Skip && *final(self) == *old(self),
            !old(self).size.is_empty() ==> step == (RenderStep::Draw {
                reconfigure: old(self).size_changed,
                update_title: old(self).frame_count == 0,
            }) && *final(self) == old(self).surface_resized(),
            old(self).wf() ==> final(self).wf(),
    {
        if self.size.width == 0 || self.size.height == 0 {
            return RenderStep::Skip;
        }
        let reconfigure = self.resize_surface_if_needed();
        RenderStep::Draw { reconfigure, update_title: self.frame_count == 0 }
    }

    /// Reacts to a window event once the application exists: keyboard events
    /// go to the camera controller, a resize to a non-empty size is recorded,
    /// and the rest tells the event loop what to do.
    pub fn window_event(&mut self, event: &WindowInput) -> (response: EventResponse)
        ensures
            match *event {
                WindowInput::KeyboardInput(k) => {
                    &&& response == EventResponse::KeyHandled(key_direction(k) is Some)
                    &&& *final(self) == old(self).keyed(k)
                },
                WindowInput::CloseRequested => response == EventResponse::Exit && *final(self)
                    == *old(self),
                WindowInput::Resized(s) => if s.is_empty() {
                    response == EventResponse::Minimized && *final(self) == *old(self)
                } else {
                    response == EventResponse::Resized(s) && *final(self) == old(self).resized(s)
                },
                WindowInput::RedrawRequested => response == EventResponse::Redraw && *final(self)
                    == *old(self),
                WindowInput::Other => response == EventResponse::Ignored && *final(self)
                    == *old(self),
            },
            old(self).wf() ==> final(self).wf(),
    {
        match event {
            WindowInput::KeyboardInput(k) => EventResponse::KeyHandled(self.keyboard_input(k)),
            WindowInput::CloseRequested => EventResponse::Exit,
            WindowInput::Resized(s) => {
                if s.width == 0 || s.height == 0 {
                    EventResponse::Minimized
                } else {
                    self.set_window_resized(*s);
                    EventResponse::Resized(*s)
                }
            },
            WindowInput::RedrawRequested => EventResponse::Redraw,
            WindowInput::Other => EventResponse::Ignored,
        }
    }
}

/// Reacts to a window event that arrives before the application exists: a
/// resize to a non-empty size is remembered, anything else is dropped.
pub fn missed_event(missed_resize: &mut Option<Size>, event: &WindowInput)
    ensures
        *final(missed_resize) == (match *event {
            WindowInput::Resized(s) => if s.is_empty() {
                *old(missed_resize)
            } else {
                Some(s)
            },
            _ => *old(missed_resize),
        }),
{
    match event {
        WindowInput::Resized(s) => {
            if s.width > 0 && s.height > 0 {
                *missed_resize = Some(*s);
            }
        },
        _ => {},
    }
}

/// After the window reports a new size, bringing the surface up to date
/// configures it to exactly that size and clears the pending resize.
pub proof fn lemma_resize_reaches_surface(st: AppState, new_size: Size)
    requires
        new_size != st.size,
    ensures
        st.resized(new_size).surface_resized().config == new_size,
        st.resized(new_size).surface_resized().size == new_size,
        !st.resized(new_size).surface_resized().size_changed,
{
}

/// Reporting the size the window already has changes nothing.
pub proof fn lemma_same_size_no_change(st: AppState)
    ensures
        st.resized(st.size) == st,
{
}

/// Bringing the surface up to date a second time changes nothing.
pub proof fn lemma_surface_resize_idempotent(st: AppState)
    ensures
        st.surface_resized().surface_resized() == st.surface_resized(),
        !st.surface_resized().size_changed,
{
}

/// Whatever sizes the window reports, once the surface is brought up to date
/// it is configured to the last size reported.
pub proof fn lemma_last_size_wins(st: AppState, first: Size, second: Size)
    requires
        st.wf(),
    ensures
        st.resized(first).resized(second).surface_resized().config == second,
{
}

/// The frame count restarts exactly when a whole second has passed; until
/// then every frame adds one to it.
pub proof fn lemma_frame_count(st: AppState, elapsed_secs: u64)
    requires
        st.frame_count < u32::MAX,
    ensures
        st.counted_frame(elapsed_secs).frame_count == 0 <==> elapsed_secs >= 1,
        elapsed_secs == 0 ==> st.counted_frame(elapsed_secs).frame_count == st.frame_count + 1,
{
}

/// Every operation keeps the surface configured to the window size whenever
/// no resize is pending.
pub proof fn lemma_operations_keep_wf(st: AppState, e: KeyInput, s: Size, elapsed_secs: u64)
    requires
        st.wf(),
        st.frame_count < u32::MAX,
    ensures
        st.keyed(e).wf(),
        st.resized(s).wf(),
        st.surface_resized().wf(),
        st.counted_frame(elapsed_secs).wf(),
{
}

/// Raising each side to one pixel keeps every non-zero side as it is and turns
/// a zero side into one pixel.
pub proof fn lemma_at_least_one_pixel(s: Size)
    ensures
        at_least_one_pixel(s).width == (if s.width >= 1 { s.width } else { 1 }),
        at_least_one_pixel(s).height == (if s.height >= 1 { s.height } else { 1 }),
        !at_least_one_pixel(s).is_empty(),
        !s.is_empty() ==> at_least_one_pixel(s) == s,
{
}

/// Reporting a size other than the current one records it and marks a resize
/// pending, and leaves the surface configuration, the frame count and the held
/// keys as they were; the surface is configured to it only by a later
/// `surface_resized`.
pub proof fn lemma_resize_marks_pending(st: AppState, s: Size)
    requires
        s != st.size,
    ensures
        st.resized(s).size == s,
        st.resized(s).size_changed,
        st.resized(s).config == st.config,
        st.resized(s).frame_count == st.frame_count,
        st.resized(s).camera_controller == st.camera_controller,
        st.resized(s).surface_resized().config == s,
{
}

/// A keyboard event changes only the held keys: for a key with a direction,
/// that direction becomes held exactly on a press and every other direction
/// keeps its state; a key without a direction changes nothing. The window size,
/// surface configuration and frame count are untouched.
pub proof fn lemma_key_changes_only_its_direction(st: AppState, e: KeyInput, d: Direction)
    ensures
        st.keyed(e).size == st.size,
        st.keyed(e).config == st.config,
        st.keyed(e).size_changed == st.size_changed,
        st.keyed(e).frame_count == st.frame_count,
        key_direction(e) is None ==> st.keyed(e) == st,
        key_direction(e) == Some(d) ==> st.keyed(e).camera_controller.pressed(d) == (e.state
            == ElementState::Pressed),
        key_direction(e) is Some && key_direction(e) != Some(d) ==> st.keyed(
            e,
        ).camera_controller.pressed(d) == st.camera_controller.pressed(d),
{
}

} // verus!
