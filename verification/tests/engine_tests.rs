use peridot2::game::{
    align_up, EngineEvents, EngineLoopEvent, FrameLoopState, FrameStep, MemoryProperties,
    MemoryType, PresentOutcome, MEMORY_PROPERTY_DEVICE_LOCAL_BIT, MEMORY_PROPERTY_HOST_VISIBLE_BIT,
};
use peridot2::shell::{
    choose_back_buffer_count, choose_back_buffer_format, choose_swap_extent,
    classify_display_event, classify_global, classify_window_message, DisplayLoopAction,
    DuplicateGlobal, GlobalBinding, WindowMessageAction, VK_FORMAT_B8G8R8A8_UNORM,
    VK_FORMAT_R8G8B8A8_SRGB, VK_FORMAT_R8G8B8A8_UNORM, WM_DESTROY,
};

fn mem(flags: u32) -> MemoryType {
    MemoryType { property_flags: flags, heap_index: 0 }
}

#[test]
fn memory_search_takes_the_first_allowed_match() {
    let props = MemoryProperties {
        types: vec![
            mem(MEMORY_PROPERTY_HOST_VISIBLE_BIT),
            mem(MEMORY_PROPERTY_DEVICE_LOCAL_BIT),
            mem(MEMORY_PROPERTY_DEVICE_LOCAL_BIT | MEMORY_PROPERTY_HOST_VISIBLE_BIT),
        ],
    };
    assert_eq!(props.find_device_local_index(0b111), Some(1));
    assert_eq!(props.find_device_local_index(0b101), Some(2));
    assert_eq!(props.find_device_local_index(0b001), None);
    assert_eq!(props.find_host_visible_index(0b111), Some(0));
    assert_eq!(props.find_host_visible_index(0b110), Some(2));

    let engine = peridot2::game::Engine {
        graphics_queue_family_index: 0,
        memory_properties: props,
    };
    assert_eq!(engine.find_matching_device_local_memory_index(0b111), Some(1));
    assert_eq!(engine.find_matching_host_visible_memory_index(0b010), None);
}

#[test]
fn align_up_rounds_to_the_next_multiple() {
    assert_eq!(align_up(0, 16), 0);
    assert_eq!(align_up(1, 16), 16);
    assert_eq!(align_up(16, 16), 16);
    assert_eq!(align_up(17, 16), 32);
    assert_eq!(align_up(96, 256), 256);
    assert_eq!(align_up(5, 1), 5);
}

#[test]
fn frames_are_skipped_while_the_previous_one_runs() {
    let mut state = FrameLoopState::new();
    assert_eq!(
        state.step(EngineLoopEvent::FrameRequested { fence_signaled: false }),
        FrameStep::Render
    );
    assert!(state.presented(PresentOutcome::Success).is_ok());
    assert!(state.last_render_occured);

    assert_eq!(
        state.step(EngineLoopEvent::FrameRequested { fence_signaled: false }),
        FrameStep::SkipUnfinished
    );
    assert_eq!(
        state.step(EngineLoopEvent::FrameRequested { fence_signaled: true }),
        FrameStep::Render
    );
    assert!(!state.last_render_occured);
}

#[test]
fn out_of_date_presentation_suspends_the_loop() {
    let mut state = FrameLoopState::new();
    assert_eq!(
        state.step(EngineLoopEvent::FrameRequested { fence_signaled: true }),
        FrameStep::Render
    );
    assert!(state.presented(PresentOutcome::OutOfDate).is_ok());
    assert!(state.presentation_suspending);
    assert_eq!(
        state.step(EngineLoopEvent::FrameRequested { fence_signaled: true }),
        FrameStep::SkipSuspended
    );
    assert!(state.must_wait_before_shutdown());
}

#[test]
fn present_failure_is_handed_back() {
    let mut state = FrameLoopState::new();
    state.step(EngineLoopEvent::FrameRequested { fence_signaled: true });
    assert_eq!(state.presented(PresentOutcome::Failure(-4)), Err(-4));
    assert!(!state.last_render_occured);
}

#[test]
fn shutdown_leaves_the_loop() {
    let mut state = FrameLoopState::new();
    assert_eq!(
        state.step(EngineLoopEvent::Engine(EngineEvents::Shutdown)),
        FrameStep::Exit
    );
    assert!(!state.must_wait_before_shutdown());
}

#[test]
fn the_needed_globals_are_bound_once() {
    assert_eq!(
        classify_global("wl_compositor", false, false),
        Ok(GlobalBinding::BindCompositor)
    );
    assert_eq!(
        classify_global("wl_compositor", true, false),
        Err(DuplicateGlobal::Compositor)
    );
    assert_eq!(
        classify_global("xdg_wm_base", true, false),
        Ok(GlobalBinding::BindWmBase)
    );
    assert_eq!(
        classify_global("xdg_wm_base", true, true),
        Err(DuplicateGlobal::WmBase)
    );
    assert_eq!(
        classify_global("wl_seat", false, false),
        Ok(GlobalBinding::Ignore)
    );
}

#[test]
fn only_a_destroy_message_quits_the_loop() {
    assert_eq!(classify_window_message(WM_DESTROY), WindowMessageAction::Quit);
    assert_eq!(classify_window_message(0), WindowMessageAction::Forward);
    assert_eq!(classify_window_message(15), WindowMessageAction::Forward);
}

#[test]
fn only_error_messages_stop_the_offender() {
    assert!(peridot2::shell::debug_message_stops(0x1000));
    assert!(peridot2::shell::debug_message_stops(0x1100));
    assert!(!peridot2::shell::debug_message_stops(0x0100));
    assert!(!peridot2::shell::debug_message_stops(0));
}

#[test]
fn event_loop_wakeups_are_told_apart() {
    assert_eq!(classify_display_event(0), DisplayLoopAction::DispatchDisplay);
    assert_eq!(classify_display_event(1), DisplayLoopAction::Terminate);
    assert_eq!(classify_display_event(9), DisplayLoopAction::Ignore);
}

#[test]
fn linear_formats_are_preferred_over_gamma_ones() {
    let formats = vec![99, VK_FORMAT_R8G8B8A8_SRGB, VK_FORMAT_B8G8R8A8_UNORM];
    assert_eq!(choose_back_buffer_format(&formats), Some(2));

    let only_srgb = vec![99, VK_FORMAT_R8G8B8A8_SRGB];
    assert_eq!(choose_back_buffer_format(&only_srgb), Some(1));

    let nothing = vec![99, 100];
    assert_eq!(choose_back_buffer_format(&nothing), None);

    let first_wins = vec![VK_FORMAT_R8G8B8A8_UNORM, VK_FORMAT_B8G8R8A8_UNORM];
    assert_eq!(choose_back_buffer_format(&first_wins), Some(0));
}

#[test]
fn two_back_buffers_clamped_into_the_supported_range() {
    assert_eq!(choose_back_buffer_count(1, 8), 2);
    assert_eq!(choose_back_buffer_count(3, 8), 3);
    assert_eq!(choose_back_buffer_count(0, 1), 1);
    assert_eq!(choose_back_buffer_count(2, 2), 2);
}

#[test]
fn undecided_extents_fall_back_to_the_initial_size() {
    assert_eq!(choose_swap_extent(800, 600, 640, 480), (800, 600));
    assert_eq!(choose_swap_extent(0xffff_ffff, 0xffff_ffff, 640, 480), (640, 480));
    assert_eq!(choose_swap_extent(0xffff_ffff, 600, 640, 480), (640, 600));
}
