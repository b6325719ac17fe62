//! A display whose windows a helper process owns.
use crate::text;
use std::collections::{HashMap, HashSet, VecDeque};
use vstd::prelude::*;

verus! {

/// Event type of keys and buttons.
pub const EV_KEY: u16 = 1;

/// Event type of relative motion.
pub const EV_REL: u16 = 2;

/// Event type of absolute motion.
pub const EV_ABS: u16 = 3;

/// The first code that is a button of a mouse, and not a key.
pub const BTN_MOUSE: u16 = 0x110;

pub const BYTES_PER_PIXEL: u32 = 4;

/// What the helper is asked to do. The shared memory is known by a descriptor.
#[derive(Clone, Copy, Debug, PartialEq, Eq, Structural)]
pub enum DisplayRequest {
    CreateSurface { surface_id: u32, width: u32, height: u32, shm: i32, shm_size: u64 },
    DestroySurface { surface_id: u32 },
    Flip { surface_id: u32 },
    InjectKey { surface_id: u32, keycode: u16, pressed: bool },
    Shutdown,
}

/// What the helper tells.
#[derive(Debug)]
pub enum DisplayResponse {
    SurfaceCreated { surface_id: u32 },
    CloseRequested { surface_id: u32 },
    InputEvent { surface_id: u32, type_: u16, code: u16, value: i32 },
    Error { message: String },
}

impl DisplayResponse {
    /// The surface that a response is about, or zero.
    pub open spec fn surface(&self) -> u64 {
        match self {
            DisplayResponse::SurfaceCreated { surface_id } => *surface_id as u64,
            DisplayResponse::CloseRequested { surface_id } => *surface_id as u64,
            DisplayResponse::InputEvent { surface_id, .. } => *surface_id as u64,
            DisplayResponse::Error { .. } => 0,
        }
    }

    pub fn descriptor(&self) -> (r: u64)
        ensures
            r == self.surface(),
    {
        match self {
            DisplayResponse::SurfaceCreated { surface_id } => *surface_id as u64,
            DisplayResponse::CloseRequested { surface_id } => *surface_id as u64,
            DisplayResponse::InputEvent { surface_id, type_, code, value } => *surface_id as u64,
            DisplayResponse::Error { message } => 0,
        }
    }
}

/// Errors of a display.
#[derive(Clone, Copy, Debug, PartialEq, Eq, Structural)]
pub enum GpuDisplayError {
    Allocate,
    Connect,
    Unsupported,
}

/// The device that an event is from.
#[derive(Clone, Copy, Debug, PartialEq, Eq, Structural)]
pub enum EventDeviceKind {
    Mouse,
    Keyboard,
}

/// An input event for the guest.
#[derive(Clone, Copy, Debug, PartialEq, Eq, Structural)]
pub struct InputEvent {
    pub type_: u16,
    pub code: u16,
    pub value: i32,
}

/// An input event and the device that it is from.
#[derive(Clone, Copy, Debug, PartialEq, Eq, Structural)]
pub struct GpuDisplayEvents {
    pub event: InputEvent,
    pub device_type: EventDeviceKind,
}

/// Whether a surface is one that is shown.
#[derive(Clone, Copy, Debug, PartialEq, Eq, Structural)]
pub enum SurfaceType {
    Scanout,
    Cursor,
}

/// The event of a key: released, pressed or repeated.
pub open spec fn key_value(value: i32) -> i32 {
    if value == 0 {
        0
    } else if value == 2 {
        2
    } else {
        1
    }
}

/// The event for the guest that an event of the helper becomes, if any. Keys
/// are from the keyboard, all else is from the mouse.
pub open spec fn guest_event(type_: u16, code: u16, value: i32) -> Option<GpuDisplayEvents> {
    if EV_KEY <= type_ <= EV_ABS {
        Some(
            GpuDisplayEvents {
                event: InputEvent {
                    type_,
                    code,
                    value: if type_ == EV_KEY {
                        key_value(value)
                    } else {
                        value
                    },
                },
                device_type: if type_ == EV_KEY && code < BTN_MOUSE {
                    EventDeviceKind::Keyboard
                } else {
                    EventDeviceKind::Mouse
                },
            },
        )
    } else {
        None
    }
}

/// The event for the guest.
pub fn input_event(type_: u16, code: u16, value: i32) -> (r: Option<GpuDisplayEvents>)
    ensures
        r == guest_event(type_, code, value),
{
    let event = if type_ == EV_KEY {
        let pressed: bool = value != 0;
        let repeat: bool = value == 2;
        let v: i32 = if pressed {
            if repeat {
                2
            } else {
                1
            }
        } else {
            0
        };
        InputEvent { type_, code, value: v }
    } else if type_ == EV_REL || type_ == EV_ABS {
        InputEvent { type_, code, value }
    } else {
        return None;
    };
    let device_type = if type_ == EV_KEY && code < BTN_MOUSE {
        EventDeviceKind::Keyboard
    } else {
        EventDeviceKind::Mouse
    };
    Some(GpuDisplayEvents { event, device_type })
}

/// The display: what the helper has told, and which surfaces the user has
/// closed.
#[derive(Debug)]
pub struct DisplayMacos {
    pub pending_responses: VecDeque<DisplayResponse>,
    pub current_response: Option<DisplayResponse>,
    pub closed_surfaces: HashSet<u32>,
}

/// What a surface needs: how much shared memory, and what the helper is asked.
#[derive(Clone, Copy, Debug, PartialEq, Eq, Structural)]
pub struct SurfacePlan {
    pub fb_size: u64,
    /// Whether the helper is asked to create a window.
    pub visible: bool,
}

impl DisplayMacos {
    /// A display that nothing was told yet. `connected` is whether the helper
    /// was started and the connection to it stands; without it there is no
    /// display.
    pub fn new(connected: bool) -> (r: Result<Self, GpuDisplayError>)
        ensures
            r is Ok <==> connected,
            r matches Err(e) ==> e == GpuDisplayError::Connect,
            r matches Ok(d) ==> {
                &&& d.pending_responses@ == Seq::<DisplayResponse>::empty()
                &&& d.current_response is None
                &&& d.closed_surfaces@ == Set::<u32>::empty()
            },
    {
        if !connected {
            return Err(GpuDisplayError::Connect);
        }
        Ok(
            DisplayMacos {
                pending_responses: VecDeque::new(),
                current_response: None,
                closed_surfaces: HashSet::new(),
            },
        )
    }

    /// Whether the user has closed a surface.
    pub open spec fn is_closed(&self, surface_id: u32) -> bool {
        self.closed_surfaces@.contains(surface_id)
    }

    pub fn pending_events(&self) -> (r: bool)
        ensures
            r == (self.pending_responses@.len() > 0),
    {
        self.pending_responses.len() != 0
    }

    /// Takes a response of the helper.
    pub fn receive(&mut self, resp: DisplayResponse)
        ensures
            final(self).pending_responses@ == old(self).pending_responses@.push(resp),
            final(self).current_response == old(self).current_response,
            final(self).closed_surfaces == old(self).closed_surfaces,
    {
        self.pending_responses.push_back(resp);
    }

    /// Takes the oldest response up. Returns the surface that it is about, or
    /// zero.
    pub fn next_event(&mut self) -> (r: u64)
        ensures
            final(self).closed_surfaces == old(self).closed_surfaces,
            old(self).pending_responses@.len() == 0 ==> r == 0 && final(self).pending_responses@
                == old(self).pending_responses@ && final(self).current_response == old(
                self,
            ).current_response,
            old(self).pending_responses@.len() > 0 ==> {
                let first = old(self).pending_responses@[0];
                &&& r == first.surface()
                &&& final(self).current_response == Some(first)
                &&& final(self).pending_responses@ == old(self).pending_responses@.skip(1)
            },
    {
        match self.pending_responses.pop_front() {
            None => 0,
            Some(resp) => {
                assert(self.pending_responses@ =~= old(self).pending_responses@.skip(1));
                let descriptor: u64 = resp.descriptor();
                self.current_response = Some(resp);
                descriptor
            },
        }
    }

    /// Handles the response that was taken up: notes that a surface was closed,
    /// or returns an event for the guest.
    pub fn handle_next_event(&mut self) -> (r: Option<GpuDisplayEvents>)
        ensures
            r == (match old(self).current_response {
                Some(DisplayResponse::InputEvent { surface_id, type_, code, value }) => guest_event(
                    type_,
                    code,
                    value,
                ),
                _ => None,
            }),
            final(self).current_response is None,
            final(self).pending_responses == old(self).pending_responses,
            forall|id: u32| #[trigger]
                final(self).is_closed(id) == (old(self).is_closed(id) || (
                old(self).current_response matches Some(
                    DisplayResponse::CloseRequested { surface_id },
                ) && surface_id == id)),
    {
        let mut taken: Option<DisplayResponse> = None;
        std::mem::swap(&mut taken, &mut self.current_response);
        match taken {
            None => None,
            Some(DisplayResponse::CloseRequested { surface_id }) => {
                self.closed_surfaces.insert(surface_id);
                None
            },
            Some(DisplayResponse::InputEvent { surface_id, type_, code, value }) => input_event(
                type_,
                code,
                value,
            ),
            Some(DisplayResponse::SurfaceCreated { surface_id }) => None,
            Some(DisplayResponse::Error { message }) => None,
        }
    }

    /// Whether the user wants a surface closed.
    pub fn close_requested(&self, surface_id: u32) -> (r: bool)
        ensures
            r == self.is_closed(surface_id),
    {
        self.closed_surfaces.contains(&surface_id)
    }

    /// Plans a new surface. One below another surface is not supported.
    pub fn create_surface(
        &self,
        parent_surface_id: Option<u32>,
        width: u32,
        height: u32,
        surf_type: SurfaceType,
    ) -> (r: Result<SurfacePlan, GpuDisplayError>)
        requires
            width * height * BYTES_PER_PIXEL <= u64::MAX,
        ensures
            r == (if parent_surface_id is Some {
                Err::<SurfacePlan, GpuDisplayError>(GpuDisplayError::Unsupported)
            } else {
                Ok(
                    SurfacePlan {
                        fb_size: framebuffer_size(width, height) as u64,
                        visible: surf_type == SurfaceType::Scanout,
                    },
                )
            }),
    {
        if parent_surface_id.is_some() {
            return Err(GpuDisplayError::Unsupported);
        }
        let fb_size: u64 = framebuffer_bytes(width, height);
        let visible: bool = match surf_type {
            SurfaceType::Scanout => true,
            SurfaceType::Cursor => false,
        };
        Ok(SurfacePlan { fb_size, visible })
    }

    /// Gives a surface up. Returns what the helper is asked.
    pub fn release_surface(&mut self, surface_id: u32) -> (r: DisplayRequest)
        ensures
            r == (DisplayRequest::DestroySurface { surface_id }),
            final(self).pending_responses == old(self).pending_responses,
            final(self).current_response == old(self).current_response,
            forall|id: u32| #[trigger]
                final(self).is_closed(id) == (old(self).is_closed(id) && id != surface_id),
    {
        self.closed_surfaces.remove(&surface_id);
        DisplayRequest::DestroySurface { surface_id }
    }
}

/// How many bytes a frame of a size has.
pub open spec fn framebuffer_size(width: u32, height: u32) -> int {
    width * height * BYTES_PER_PIXEL
}

/// How many bytes a frame of a size has.
pub fn framebuffer_bytes(width: u32, height: u32) -> (r: u64)
    requires
        width * height * BYTES_PER_PIXEL <= u64::MAX,
    ensures
        r == framebuffer_size(width, height),
{
    let area: u64 = area_of(width as u64, height as u64);
    area * BYTES_PER_PIXEL as u64
}

fn area_of(width: u64, height: u64) -> (r: u64)
    requires
        width <= u32::MAX,
        height <= u32::MAX,
    ensures
        r == width * height,
{
    assert(width * height <= 0xffff_ffff * 0xffff_ffff) by (nonlinear_arith)
        requires
            width <= 0xffff_ffff,
            height <= 0xffff_ffff,
    ;
    width * height
}

/// How many bytes a line of a frame has.
pub fn stride(width: u32) -> (r: u32)
    requires
        width * BYTES_PER_PIXEL <= u32::MAX,
    ensures
        r == width * BYTES_PER_PIXEL,
{
    width * BYTES_PER_PIXEL
}

/// A window of the helper.
#[derive(Clone, Copy, Debug, PartialEq, Eq, Structural)]
pub struct HelperSurface {
    pub id: u32,
    pub width: u32,
    pub height: u32,
    pub window_handle: u64,
}

/// What is done on the main thread of the helper.
#[derive(Clone, Copy, Debug, PartialEq, Eq, Structural)]
pub enum MainThreadOp {
    CreateSurface { surface_id: u32, width: u32, height: u32, shm: i32, shm_size: u64 },
    DestroySurface { surface_id: u32 },
    Flip { surface_id: u32 },
    InjectKey { surface_id: u32, keycode: u16, pressed: bool },
    Stop,
}

/// What a request makes the main thread do.
pub open spec fn op_of(req: DisplayRequest) -> MainThreadOp {
    match req {
        DisplayRequest::CreateSurface { surface_id, width, height, shm, shm_size } =>
            MainThreadOp::CreateSurface { surface_id, width, height, shm, shm_size },
        DisplayRequest::DestroySurface { surface_id } => MainThreadOp::DestroySurface {
            surface_id,
        },
        DisplayRequest::Flip { surface_id } => MainThreadOp::Flip { surface_id },
        DisplayRequest::InjectKey { surface_id, keycode, pressed } => MainThreadOp::InjectKey {
            surface_id,
            keycode,
            pressed,
        },
        DisplayRequest::Shutdown => MainThreadOp::Stop,
    }
}

/// One round of the thread that receives requests: what it received, or nothing
/// where the connection was closed, becomes an operation for the main thread.
/// `shm_ok` is whether the shared memory of a new surface could be taken over;
/// where it could not, the request is dropped. Returns the operation, and
/// whether the thread goes on.
pub fn bg_thread_fn(received: Option<DisplayRequest>, shm_ok: bool) -> (r: (
    Option<MainThreadOp>,
    bool,
))
    ensures
        r.0 == (match received {
            Some(req) => if req is CreateSurface && !shm_ok {
                None
            } else {
                Some(op_of(req))
            },
            None => Some(MainThreadOp::Stop),
        }),
        r.1 == (r.0 != Some(MainThreadOp::Stop)),
{
    let op = match received {
        Some(DisplayRequest::CreateSurface { surface_id, width, height, shm, shm_size }) => {
            if !shm_ok {
                return (None, true);
            }
            MainThreadOp::CreateSurface { surface_id, width, height, shm, shm_size }
        },
        Some(DisplayRequest::DestroySurface { surface_id }) => MainThreadOp::DestroySurface {
            surface_id,
        },
        Some(DisplayRequest::Flip { surface_id }) => MainThreadOp::Flip { surface_id },
        Some(DisplayRequest::InjectKey { surface_id, keycode, pressed }) =>
            MainThreadOp::InjectKey { surface_id, keycode, pressed },
        Some(DisplayRequest::Shutdown) => MainThreadOp::Stop,
        None => MainThreadOp::Stop,
    };
    let is_stop: bool = match op {
        MainThreadOp::Stop => true,
        _ => false,
    };
    (Some(op), !is_stop)
}

/// What the main thread does with its windows.
#[derive(Debug)]
pub enum WindowAction {
    /// Map the shared memory and create a window for it.
    Create { surface_id: u32, width: u32, height: u32, shm: i32, shm_size: u64 },
    Destroy { window_handle: u64 },
    Flip { window_handle: u64 },
    InjectKey { window_handle: u64, keycode: u16, pressed: bool },
    /// Destroy all these windows and stop.
    Stop { windows: Vec<u64> },
    Nothing,
}

/// The windows of the helper.
#[derive(Debug)]
pub struct HelperState {
    pub surfaces: HashMap<u32, HelperSurface>,
}

impl HelperState {
    /// Each surface stands under its number.
    pub open spec fn wf(&self) -> bool {
        forall|id: u32| #[trigger]
            self.surfaces@.contains_key(id) ==> self.surfaces@[id].id == id
    }

    /// The window of a surface, if it has one.
    pub open spec fn window(&self, id: u32) -> Option<u64> {
        if self.surfaces@.contains_key(id) {
            Some(self.surfaces@[id].window_handle)
        } else {
            None
        }
    }

    /// `windows` holds the window of each surface once, in some order.
    pub open spec fn all_windows(&self, windows: Seq<u64>) -> bool {
        exists|order: Seq<u32>|
            {
                &&& #[trigger] order.no_duplicates()
                &&& order.to_set() == self.surfaces@.dom()
                &&& windows == order.map(|i: int, id: u32| self.surfaces@[id].window_handle)
            }
    }

    pub fn new() -> (r: Self)
        ensures
            r.wf(),
            r.surfaces@ == Map::<u32, HelperSurface>::empty(),
    {
        HelperState { surfaces: HashMap::new() }
    }

    fn handle_of(&self, id: u32) -> (r: Option<u64>)
        ensures
            r == self.window(id),
    {
        match self.surfaces.get(&id) {
            Some(surface) => Some(surface.window_handle),
            None => None,
        }
    }

    fn window_handles(&self) -> (windows: Vec<u64>)
        ensures
            self.all_windows(windows@),
    {
        broadcast use vstd::std_specs::hash::group_hash_axioms;

        let keys = self.surfaces.keys();
        let ghost order = vstd::std_specs::iter::IteratorSpec::remaining(&keys).unref();
        let mut windows: Vec<u64> = Vec::new();
        assert(order.no_duplicates());
        for id in it: keys
            invariant
                windows@.len() == it.index(),
                it.seq().unref() == order,
                order.to_set() == self.surfaces@.dom(),
                forall|j: int|
                    0 <= j < it.index() ==> #[trigger] windows@[j]
                        == self.surfaces@[order[j]].window_handle,
        {
            assert(order[it.index()] == *id);
            assert(order.to_set().contains(*id));
            if let Some(window_handle) = self.handle_of(*id) {
                windows.push(window_handle);
            }
        }
        assert(windows@ =~= order.map(|i: int, id: u32| self.surfaces@[id].window_handle));
        windows
    }

    /// What the main thread does for an operation.
    pub fn handle_op_on_main(&mut self, op: MainThreadOp) -> (r: WindowAction)
        requires
            old(self).wf(),
        ensures
            final(self).wf(),
            match op {
                MainThreadOp::CreateSurface { surface_id, width, height, shm, shm_size } => {
                    &&& r == (WindowAction::Create { surface_id, width, height, shm, shm_size })
                    &&& final(self).surfaces@ == old(self).surfaces@
                },
                MainThreadOp::DestroySurface { surface_id } => {
                    &&& r == (match old(self).window(surface_id) {
                        Some(window_handle) => WindowAction::Destroy { window_handle },
                        None => WindowAction::Nothing,
                    })
                    &&& final(self).surfaces@ == old(self).surfaces@.remove(surface_id)
                },
                MainThreadOp::Flip { surface_id } => {
                    &&& r == (match old(self).window(surface_id) {
                        Some(window_handle) => WindowAction::Flip { window_handle },
                        None => WindowAction::Nothing,
                    })
                    &&& final(self).surfaces@ == old(self).surfaces@
                },
                MainThreadOp::InjectKey { surface_id, keycode, pressed } => {
                    &&& r == (match old(self).window(surface_id) {
                        Some(window_handle) => WindowAction::InjectKey {
                            window_handle,
                            keycode,
                            pressed,
                        },
                        None => WindowAction::Nothing,
                    })
                    &&& final(self).surfaces@ == old(self).surfaces@
                },
                MainThreadOp::Stop => {
                    &&& r matches WindowAction::Stop { windows } && old(self).all_windows(windows@)
                    &&& final(self).surfaces@ == Map::<u32, HelperSurface>::empty()
                },
            },
    {
        match op {
            MainThreadOp::CreateSurface { surface_id, width, height, shm, shm_size } =>
                WindowAction::Create { surface_id, width, height, shm, shm_size },
            MainThreadOp::DestroySurface { surface_id } => match self.surfaces.remove(&surface_id) {
                Some(surface) => WindowAction::Destroy { window_handle: surface.window_handle },
                None => {
                    assert(self.surfaces@ =~= old(self).surfaces@.remove(surface_id));
                    WindowAction::Nothing
                },
            },
            MainThreadOp::Flip { surface_id } => match self.handle_of(surface_id) {
                Some(window_handle) => WindowAction::Flip { window_handle },
                None => WindowAction::Nothing,
            },
            MainThreadOp::InjectKey { surface_id, keycode, pressed } => match self.handle_of(
                surface_id,
            ) {
                Some(window_handle) => WindowAction::InjectKey { window_handle, keycode, pressed },
                None => WindowAction::Nothing,
            },
            MainThreadOp::Stop => {
                let windows: Vec<u64> = self.window_handles();
                self.surfaces.clear();
                WindowAction::Stop { windows }
            },
        }
    }

    /// A window was created, or the shared memory could not be mapped. Returns
    /// what the display is told.
    pub fn window_created(
        &mut self,
        surface_id: u32,
        width: u32,
        height: u32,
        created: Result<u64, String>,
    ) -> (r: DisplayResponse)
        requires
            old(self).wf(),
        ensures
            final(self).wf(),
            match created {
                Ok(window_handle) => {
                    &&& r == (DisplayResponse::SurfaceCreated { surface_id })
                    &&& final(self).surfaces@ == old(self).surfaces@.insert(
                        surface_id,
                        HelperSurface { id: surface_id, width, height, window_handle },
                    )
                },
                Err(e) => {
                    &&& r matches DisplayResponse::Error { message } && message@
                        == "mmap failed: "@ + e@
                    &&& final(self).surfaces@ == old(self).surfaces@
                },
            },
    {
        match created {
            Ok(window_handle) => {
                self.surfaces.insert(
                    surface_id,
                    HelperSurface { id: surface_id, width, height, window_handle },
                );
                DisplayResponse::SurfaceCreated { surface_id }
            },
            Err(e) => DisplayResponse::Error { message: text::joined("mmap failed: ", e.as_str()) },
        }
    }
}

/// The key of the guest for a key of the host's keyboard; zero, if there is
/// none.
pub open spec fn linux_keycode(mac: u16) -> u16 {
    if mac == 0x00 {
        30
    } else if mac == 0x01 {
        31
    } else if mac == 0x02 {
        32
    } else if mac == 0x03 {
        33
    } else if mac == 0x04 {
        35
    } else if mac == 0x05 {
        34
    } else if 0x06 <= mac <= 0x09 {
        (mac + 38) as u16
    } else if mac == 0x0b {
        48
    } else if 0x0c <= mac <= 0x0f {
        (mac + 4) as u16
    } else if mac == 0x10 {
        21
    } else if mac == 0x11 {
        20
    } else if mac == 0x1f {
        24
    } else if mac == 0x20 {
        22
    } else if mac == 0x22 {
        23
    } else if mac == 0x23 {
        25
    } else if mac == 0x24 {
        28
    } else if mac == 0x25 {
        38
    } else if mac == 0x26 {
        36
    } else if mac == 0x28 {
        37
    } else if mac == 0x2d {
        49
    } else if mac == 0x2e {
        50
    } else if mac == 0x30 {
        15
    } else if mac == 0x31 {
        57
    } else if mac == 0x33 {
        14
    } else if mac == 0x35 {
        1
    } else if mac == 0x36 {
        126
    } else if mac == 0x37 {
        125
    } else if mac == 0x38 {
        42
    } else if mac == 0x39 {
        58
    } else if mac == 0x3a {
        56
    } else if mac == 0x3b {
        29
    } else if mac == 0x3c {
        54
    } else if mac == 0x3d {
        100
    } else if mac == 0x3e {
        97
    } else if 0x60 <= mac <= 0x62 {
        (mac - 0x60 + 63) as u16
    } else if mac == 0x63 {
        61
    } else if mac == 0x64 {
        66
    } else if mac == 0x65 {
        67
    } else if mac == 0x67 {
        87
    } else if mac == 0x6d {
        68
    } else if mac == 0x6f {
        88
    } else if mac == 0x73 {
        102
    } else if mac == 0x74 {
        104
    } else if mac == 0x75 {
        111
    } else if mac == 0x76 {
        62
    } else if mac == 0x77 {
        107
    } else if mac == 0x78 {
        60
    } else if mac == 0x79 {
        109
    } else if mac == 0x7a {
        59
    } else if mac == 0x7b {
        105
    } else if mac == 0x7c {
        106
    } else if mac == 0x7d {
        108
    } else if mac == 0x7e {
        103
    } else {
        0
    }
}

/// The key of the guest for a key of the host's keyboard; zero, if there is
/// none.
pub fn macos_keycode_to_linux(mac_keycode: u16) -> (r: u16)
    ensures
        r == linux_keycode(mac_keycode),
{
    match mac_keycode {
        0x00 => 30,
        0x01 => 31,
        0x02 => 32,
        0x03 => 33,
        0x04 => 35,
        0x05 => 34,
        0x06 => 44,
        0x07 => 45,
        0x08 => 46,
        0x09 => 47,
        0x0b => 48,
        0x0c => 16,
        0x0d => 17,
        0x0e => 18,
        0x0f => 19,
        0x10 => 21,
        0x11 => 20,
        0x1f => 24,
        0x20 => 22,
        0x22 => 23,
        0x23 => 25,
        0x24 => 28,
        0x25 => 38,
        0x26 => 36,
        0x28 => 37,
        0x2d => 49,
        0x2e => 50,
        0x30 => 15,
        0x31 => 57,
        0x33 => 14,
        0x35 => 1,
        0x36 => 126,
        0x37 => 125,
        0x38 => 42,
        0x39 => 58,
        0x3a => 56,
        0x3b => 29,
        0x3c => 54,
        0x3d => 100,
        0x3e => 97,
        0x60 => 63,
        0x61 => 64,
        0x62 => 65,
        0x63 => 61,
        0x64 => 66,
        0x65 => 67,
        0x67 => 87,
        0x6d => 68,
        0x6f => 88,
        0x73 => 102,
        0x74 => 104,
        0x75 => 111,
        0x76 => 62,
        0x77 => 107,
        0x78 => 60,
        0x79 => 109,
        0x7a => 59,
        0x7b => 105,
        0x7c => 106,
        0x7d => 108,
        0x7e => 103,
        _ => 0,
    }
}

/// What only displays of this host can do: nothing more than others.
pub trait MacGpuDisplayExt {

}

/// A display without event devices.
#[derive(Clone, Copy, Debug, PartialEq, Eq, Structural)]
pub struct GpuDisplay {}

impl MacGpuDisplayExt for GpuDisplay {

}

impl GpuDisplay {
    /// Event devices are not supported.
    pub fn import_event_device(&mut self) -> (r: Result<u32, GpuDisplayError>)
        ensures
            r == Err::<u32, GpuDisplayError>(GpuDisplayError::Unsupported),
            *final(self) == *old(self),
    {
        Err(GpuDisplayError::Unsupported)
    }
}

/// No two keys of the host are the same key of the guest.
pub proof fn keys_are_distinct(a: u16, b: u16)
    requires
        linux_keycode(a) != 0,
        linux_keycode(a) == linux_keycode(b),
    ensures
        a == b,
{
}

/// Keys and buttons reach the guest as released, pressed or repeated.
pub proof fn key_events_have_three_values(code: u16, value: i32)
    ensures
        guest_event(EV_KEY, code, value) is Some,
        0 <= guest_event(EV_KEY, code, value)->0.event.value <= 2,
        guest_event(EV_KEY, code, value)->0.event.value == 0 <==> value == 0,
{
}

/// Keys reach the guest from the keyboard, buttons and motion from the mouse, each
/// with its type and code. A key is released, repeated, or else pressed; motion
/// keeps its value. No other event reaches the guest.
pub proof fn input_reaches_the_guest(type_: u16, code: u16, value: i32)
    ensures
        guest_event(type_, code, value) is Some <==> type_ == 1 || type_ == 2 || type_ == 3,
        guest_event(type_, code, value) matches Some(e) ==> {
            &&& e.event.type_ == type_ && e.event.code == code
            &&& e.device_type == EventDeviceKind::Keyboard <==> type_ == 1 && code < 0x110
            &&& type_ != 1 ==> e.event.value == value
            &&& type_ == 1 && (value == 0 || value == 1 || value == 2) ==> e.event.value == value
            &&& type_ == 1 && value != 0 && value != 2 ==> e.event.value == 1
        },
{
}

/// A frame has as many lines as it is high, of four bytes for each pixel.
pub proof fn frame_is_made_of_lines(width: u32, height: u32)
    ensures
        framebuffer_size(width, height) == height * (4 * width),
        height < u32::MAX ==> framebuffer_size(width, (height + 1) as u32) - framebuffer_size(
            width,
            height,
        ) == 4 * width,
{
    assert(width * height * 4 == height * (4 * width)) by (nonlinear_arith);
    let more = height + 1;
    assert(width * more * 4 - width * height * 4 == 4 * width) by (nonlinear_arith)
        requires
            more == height + 1,
    ;
}

/// A response is taken up under the surface that it is about.
pub proof fn responses_name_their_surface(r: DisplayResponse, id: u32)
    ensures
        r == (DisplayResponse::SurfaceCreated { surface_id: id }) ==> r.surface() == id,
        r == (DisplayResponse::CloseRequested { surface_id: id }) ==> r.surface() == id,
        (r matches DisplayResponse::InputEvent { surface_id, type_, code, value } && surface_id
            == id) ==> r.surface() == id,
        r is Error ==> r.surface() == 0,
{
}

/// The main thread does for a surface just what was asked for it, and stops when it
/// is told to.
pub proof fn requests_are_passed_on(req: DisplayRequest)
    ensures
        req matches DisplayRequest::CreateSurface { surface_id, width, height, shm, shm_size }
            ==> op_of(req) == (MainThreadOp::CreateSurface {
            surface_id,
            width,
            height,
            shm,
            shm_size,
        }),
        req matches DisplayRequest::DestroySurface { surface_id } ==> op_of(req) == (
        MainThreadOp::DestroySurface { surface_id }),
        req matches DisplayRequest::Flip { surface_id } ==> op_of(req) == (MainThreadOp::Flip {
            surface_id,
        }),
        req matches DisplayRequest::InjectKey { surface_id, keycode, pressed } ==> op_of(req) == (
        MainThreadOp::InjectKey { surface_id, keycode, pressed }),
        op_of(req) == MainThreadOp::Stop <==> req == DisplayRequest::Shutdown,
{
}

} // verus!
