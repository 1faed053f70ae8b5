//! The platform shell's decisions: which globals to bind, what each
//! event-loop wakeup means, and how the swapchain is configured.

use vstd::prelude::*;

verus! {

/// Red-green-blue-alpha, 8 bits each, linear.
pub const VK_FORMAT_R8G8B8A8_UNORM: u32 = 37;

/// Red-green-blue-alpha, 8 bits each, standard gamma.
pub const VK_FORMAT_R8G8B8A8_SRGB: u32 = 43;

/// Blue-green-red-alpha, 8 bits each, linear.
pub const VK_FORMAT_B8G8R8A8_UNORM: u32 = 44;

/// Blue-green-red-alpha, 8 bits each, standard gamma.
pub const VK_FORMAT_B8G8R8A8_SRGB: u32 = 50;

/// The sentinel extent by which a surface reports that its size is not
/// yet decided.
pub const EXTENT_UNDECIDED: u32 = 0xffff_ffff;

fn str_eq(a: &str, b: &str) -> (r: bool)
    ensures
        r == (a@ == b@),
{
    let a_owned = a.to_owned();
    let b_owned = b.to_owned();
    a_owned == b_owned
}

/// What the registry listener does with one advertised global.
#[derive(Clone, Copy, PartialEq, Eq, Structural, Debug)]
pub enum GlobalBinding {
    /// Bind it as the compositor.
    BindCompositor,
    /// Bind it as the window-manager base.
    BindWmBase,
    /// Not a global the shell uses.
    Ignore,
}

/// A global the shell needs was advertised twice.
#[derive(Clone, Copy, PartialEq, Eq, Structural, Debug)]
pub enum DuplicateGlobal {
    Compositor,
    WmBase,
}

/// Decides what to do with an advertised global: the compositor and the
/// window-manager base are each bound once, a second advertisement of
/// either is an error, and every other interface is ignored.
pub fn classify_global(interface: &str, have_compositor: bool, have_wm_base: bool) -> (r: Result<
    GlobalBinding,
    DuplicateGlobal,
>)
    ensures
        interface@ == "wl_compositor"@ ==> r == (if have_compositor {
            Result::<GlobalBinding, DuplicateGlobal>::Err(DuplicateGlobal::Compositor)
        } else {
            Result::<GlobalBinding, DuplicateGlobal>::Ok(GlobalBinding::BindCompositor)
        }),
        interface@ == "xdg_wm_base"@ ==> r == (if have_wm_base {
            Result::<GlobalBinding, DuplicateGlobal>::Err(DuplicateGlobal::WmBase)
        } else {
            Result::<GlobalBinding, DuplicateGlobal>::Ok(GlobalBinding::BindWmBase)
        }),
        interface@ != "wl_compositor"@ && interface@ != "xdg_wm_base"@ ==> r == Result::<
            GlobalBinding,
            DuplicateGlobal,
        >::Ok(GlobalBinding::Ignore),
{
    proof {
        reveal_strlit("wl_compositor");
        reveal_strlit("xdg_wm_base");
        assert("wl_compositor"@.len() != "xdg_wm_base"@.len());
    }
    if str_eq(interface, "wl_compositor") {
        if have_compositor {
            Err(DuplicateGlobal::Compositor)
        } else {
            Ok(GlobalBinding::BindCompositor)
        }
    } else if str_eq(interface, "xdg_wm_base") {
        if have_wm_base {
            Err(DuplicateGlobal::WmBase)
        } else {
            Ok(GlobalBinding::BindWmBase)
        }
    } else {
        Ok(GlobalBinding::Ignore)
    }
}

/// What one event-loop wakeup asks for, by the value registered with
/// the poller: 0 is the display connection, 1 the terminate signal.
#[derive(Clone, Copy, PartialEq, Eq, Structural, Debug)]
pub enum DisplayLoopAction {
    /// Read and dispatch the display connection's events.
    DispatchDisplay,
    /// Take the terminate signal and leave the loop.
    Terminate,
    /// Not a value the loop registered.
    Ignore,
}

/// Decides what one event-loop wakeup asks for.
pub fn classify_display_event(event_data: u32) -> (r: DisplayLoopAction)
    ensures
        event_data == 0 ==> r == DisplayLoopAction::DispatchDisplay,
        event_data == 1 ==> r == DisplayLoopAction::Terminate,
        event_data > 1 ==> r == DisplayLoopAction::Ignore,
{
    if event_data == 1 {
        DisplayLoopAction::Terminate
    } else if event_data == 0 {
        DisplayLoopAction::DispatchDisplay
    } else {
        DisplayLoopAction::Ignore
    }
}

/// The window message by which the window system reports that the
/// window is being destroyed.
pub const WM_DESTROY: u32 = 2;

/// What the window procedure does with one message.
#[derive(Clone, Copy, PartialEq, Eq, Structural, Debug)]
pub enum WindowMessageAction {
    /// Ask the message loop to quit.
    Quit,
    /// Hand the message to the default procedure.
    Forward,
}

/// Decides what the window procedure does: a destroy message quits the
/// message loop, everything else is forwarded.
pub fn classify_window_message(msg: u32) -> (r: WindowMessageAction)
    ensures
        r == WindowMessageAction::Quit <==> msg == WM_DESTROY,
{
    if msg == WM_DESTROY {
        WindowMessageAction::Quit
    } else {
        WindowMessageAction::Forward
    }
}

/// The severity bit by which the graphics API marks an error message.
pub const DEBUG_MESSAGE_SEVERITY_ERROR_BIT: u32 = 0x1000;

/// Decides what the debug messenger answers after logging a message:
/// true, stopping the offending call, if and only if the message's
/// severity carries the error bit.
pub fn debug_message_stops(severity: u32) -> (r: bool)
    ensures
        r == (severity & DEBUG_MESSAGE_SEVERITY_ERROR_BIT != 0),
{
    severity & DEBUG_MESSAGE_SEVERITY_ERROR_BIT != 0
}

/// A linear 8-bit format, preferred for the back buffers.
pub open spec fn preferred_back_buffer_format(f: u32) -> bool {
    f == VK_FORMAT_R8G8B8A8_UNORM || f == VK_FORMAT_B8G8R8A8_UNORM
}

/// A gamma-encoded 8-bit format, accepted when no linear one is
/// offered.
pub open spec fn fallback_back_buffer_format(f: u32) -> bool {
    f == VK_FORMAT_R8G8B8A8_SRGB || f == VK_FORMAT_B8G8R8A8_SRGB
}

/// Picks the back-buffer format among those the surface offers: the
/// first linear 8-bit format, else the first gamma-encoded one, else
/// nothing.
pub fn choose_back_buffer_format(formats: &Vec<u32>) -> (r: Option<usize>)
    ensures
        r matches Some(i) ==> ({
            let fs = formats@;
            &&& i < fs.len()
            &&& ((fallback_back_buffer_format(fs[i as int]) && (forall|j: int|
                0 <= j < fs.len() ==> !preferred_back_buffer_format(fs[j])) && (forall|j: int|
                0 <= j < i ==> !fallback_back_buffer_format(fs[j])))
                || (preferred_back_buffer_format(fs[i as int]) && (forall|j: int|
                0 <= j < i ==> !preferred_back_buffer_format(fs[j]))))
        }),
        r is None ==> forall|j: int|
            0 <= j < formats@.len() ==> !preferred_back_buffer_format(formats@[j])
                && !fallback_back_buffer_format(formats@[j]),
{
    let n = formats.len();
    let mut i: usize = 0;
    while i < n
        invariant
            n == formats@.len(),
            i <= n,
            forall|j: int| 0 <= j < i ==> !preferred_back_buffer_format(formats@[j]),
        decreases n - i,
    {
        let f = formats[i];
        if f == VK_FORMAT_R8G8B8A8_UNORM || f == VK_FORMAT_B8G8R8A8_UNORM {
            return Some(i);
        }
        i = i + 1;
    }
    let mut i: usize = 0;
    while i < n
        invariant
            n == formats@.len(),
            i <= n,
            forall|j: int| 0 <= j < n ==> !preferred_back_buffer_format(formats@[j]),
            forall|j: int| 0 <= j < i ==> !fallback_back_buffer_format(formats@[j]),
        decreases n - i,
    {
        let f = formats[i];
        if f == VK_FORMAT_R8G8B8A8_SRGB || f == VK_FORMAT_B8G8R8A8_SRGB {
            return Some(i);
        }
        i = i + 1;
    }
    None
}

/// Picks how many back buffers the swapchain gets: two, clamped into
/// what the surface supports.
pub fn choose_back_buffer_count(min_image_count: u32, max_image_count: u32) -> (r: u32)
    requires
        min_image_count <= max_image_count,
    ensures
        r == (if min_image_count > 2 {
            min_image_count
        } else if max_image_count < 2 {
            max_image_count
        } else {
            2u32
        }),
        min_image_count <= r <= max_image_count,
{
    if min_image_count > 2 {
        min_image_count
    } else if max_image_count < 2 {
        max_image_count
    } else {
        2
    }
}

/// Picks the swapchain's extent: what the surface currently has, or the
/// window's initial size on each axis whose current extent is still
/// undecided.
pub fn choose_swap_extent(
    current_width: u32,
    current_height: u32,
    init_width: u32,
    init_height: u32,
) -> (r: (u32, u32))
    ensures
        r.0 == (if current_width == EXTENT_UNDECIDED {
            init_width
        } else {
            current_width
        }),
        r.1 == (if current_height == EXTENT_UNDECIDED {
            init_height
        } else {
            current_height
        }),
{
    let w = if current_width == EXTENT_UNDECIDED {
        init_width
    } else {
        current_width
    };
    let h = if current_height == EXTENT_UNDECIDED {
        init_height
    } else {
        current_height
    };
    (w, h)
}

} // verus!
