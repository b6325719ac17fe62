use vmm_devices::gpu_display::{
    bg_thread_fn, framebuffer_bytes, macos_keycode_to_linux, stride, DisplayMacos,
    DisplayRequest, DisplayResponse, EventDeviceKind, GpuDisplay, GpuDisplayError, HelperState,
    MacGpuDisplayExt, MainThreadOp, SurfaceType, WindowAction,
};

#[test]
fn shared_memory_framebuffer_mmap() {
    let width: u32 = 1920;
    let height: u32 = 1080;
    let fb_size = framebuffer_bytes(width, height);
    assert_eq!(fb_size, 8294400);
    assert_eq!(stride(width), 7680);
}

fn input(type_: u16, code: u16, value: i32) -> DisplayResponse {
    DisplayResponse::InputEvent {
        surface_id: 1,
        type_,
        code,
        value,
    }
}

#[test]
fn flush_drains_tube_responses() {
    let mut display = DisplayMacos::new(true).unwrap();
    assert!(!display.pending_events());
    display.receive(input(1, 30, 1));
    display.receive(input(1, 30, 0));
    assert!(display.pending_events());
    assert_eq!(display.pending_responses.len(), 2);
}

#[test]
fn close_requested_sets_surface_flag() {
    let mut display = DisplayMacos::new(true).unwrap();
    display.receive(DisplayResponse::CloseRequested { surface_id: 42 });
    assert!(!display.close_requested(42));

    // next_event pops from pending into current_response.
    let descriptor = display.next_event();
    assert_eq!(descriptor, 42);

    let result = display.handle_next_event();
    assert!(result.is_none());
    assert!(display.close_requested(42));

    assert_eq!(
        display.release_surface(42),
        DisplayRequest::DestroySurface { surface_id: 42 }
    );
    assert!(!display.close_requested(42));
}

#[test]
fn input_key_event_produces_virtio_key_event() {
    let mut display = DisplayMacos::new(true).unwrap();
    display.receive(input(1, 30, 1));

    let descriptor = display.next_event();
    assert_eq!(descriptor, 1);

    let events = display
        .handle_next_event()
        .expect("should produce an event for key press");
    assert_eq!(events.device_type, EventDeviceKind::Keyboard);
    assert_eq!(events.event.type_, 1); // EV_KEY
    assert_eq!(events.event.code, 30); // KEY_A
    assert_eq!(events.event.value, 1); // press
}

#[test]
fn input_mouse_button_classified_as_mouse() {
    let mut display = DisplayMacos::new(true).unwrap();
    display.receive(input(1, 0x110, 1));
    display.next_event();
    let events = display
        .handle_next_event()
        .expect("should produce events for mouse button");
    assert_eq!(events.device_type, EventDeviceKind::Mouse);
}

#[test]
fn input_relative_motion_produces_rel_event() {
    let mut display = DisplayMacos::new(true).unwrap();
    display.receive(input(2, 8, -3));
    display.next_event();
    let events = display
        .handle_next_event()
        .expect("should produce events for scroll");
    assert_eq!(events.device_type, EventDeviceKind::Mouse);
    assert_eq!(events.event.type_, 2);
    assert_eq!(events.event.code, 8);
    assert_eq!(events.event.value, -3);
}

#[test]
fn input_absolute_motion_produces_abs_event() {
    let mut display = DisplayMacos::new(true).unwrap();
    display.receive(input(3, 0, 500));
    display.next_event();
    let events = display
        .handle_next_event()
        .expect("should produce events for abs motion");
    assert_eq!(events.device_type, EventDeviceKind::Mouse);
    assert_eq!(events.event.type_, 3);
    assert_eq!(events.event.code, 0);
    assert_eq!(events.event.value, 500);
}

#[test]
fn keycode_table_letters() {
    let expected: &[(u16, u16)] = &[
        (0x00, 30), // A
        (0x01, 31), // S
        (0x02, 32), // D
        (0x03, 33), // F
        (0x04, 35), // H
        (0x05, 34), // G
        (0x06, 44), // Z
        (0x07, 45), // X
        (0x08, 46), // C
        (0x09, 47), // V
        (0x0B, 48), // B
        (0x0C, 16), // Q
        (0x0D, 17), // W
        (0x0E, 18), // E
        (0x0F, 19), // R
        (0x10, 21), // Y
        (0x11, 20), // T
        (0x1F, 24), // O
        (0x20, 22), // U
        (0x22, 23), // I
        (0x23, 25), // P
        (0x25, 38), // L
        (0x26, 36), // J
        (0x28, 37), // K
        (0x2D, 49), // N
        (0x2E, 50), // M
    ];
    for &(mac, linux) in expected {
        let result = macos_keycode_to_linux(mac);
        assert_eq!(result, linux, "mac keycode {:#x} should map to linux {}", mac, linux);
    }
}

#[test]
fn keycode_table_modifiers_and_special() {
    let expected: &[(u16, u16)] = &[
        (0x24, 28),  // Return -> KEY_ENTER
        (0x30, 15),  // Tab -> KEY_TAB
        (0x31, 57),  // Space -> KEY_SPACE
        (0x33, 14),  // Backspace -> KEY_BACKSPACE
        (0x35, 1),   // Escape -> KEY_ESC
        (0x38, 42),  // Shift -> KEY_LEFTSHIFT
        (0x3C, 54),  // RightShift -> KEY_RIGHTSHIFT
        (0x3A, 56),  // Option -> KEY_LEFTALT
        (0x3D, 100), // RightOption -> KEY_RIGHTALT
        (0x3B, 29),  // Control -> KEY_LEFTCTRL
        (0x3E, 97),  // RightControl -> KEY_RIGHTCTRL
        (0x37, 125), // Command -> KEY_LEFTMETA
        (0x36, 126), // RightCommand -> KEY_RIGHTMETA
        (0x39, 58),  // CapsLock -> KEY_CAPSLOCK
    ];
    for &(mac, linux) in expected {
        let result = macos_keycode_to_linux(mac);
        assert_eq!(result, linux, "mac keycode {:#x} should map to linux {}", mac, linux);
    }
}

#[test]
fn keycode_table_arrows_and_navigation() {
    let expected: &[(u16, u16)] = &[
        (0x7B, 105), // Left -> KEY_LEFT
        (0x7C, 106), // Right -> KEY_RIGHT
        (0x7D, 108), // Down -> KEY_DOWN
        (0x7E, 103), // Up -> KEY_UP
        (0x73, 102), // Home -> KEY_HOME
        (0x77, 107), // End -> KEY_END
        (0x74, 104), // PageUp -> KEY_PAGEUP
        (0x79, 109), // PageDown -> KEY_PAGEDOWN
        (0x75, 111), // ForwardDelete -> KEY_DELETE
    ];
    for &(mac, linux) in expected {
        let result = macos_keycode_to_linux(mac);
        assert_eq!(result, linux, "mac keycode {:#x} should map to linux {}", mac, linux);
    }
}

#[test]
fn keycode_table_function_keys() {
    let expected: &[(u16, u16)] = &[
        (0x7A, 59), // F1
        (0x78, 60), // F2
        (0x63, 61), // F3
        (0x76, 62), // F4
        (0x60, 63), // F5
        (0x61, 64), // F6
        (0x62, 65), // F7
        (0x64, 66), // F8
        (0x65, 67), // F9
        (0x6D, 68), // F10
        (0x67, 87), // F11
        (0x6F, 88), // F12
    ];
    for &(mac, linux) in expected {
        let result = macos_keycode_to_linux(mac);
        assert_eq!(result, linux, "mac keycode {:#x} should map to linux {}", mac, linux);
    }
}

#[test]
fn keycode_unknown_returns_zero() {
    // Keycodes >= 128 and unmapped entries should return 0.
    assert_eq!(macos_keycode_to_linux(200), 0);
    // 0x0A is not in the table (gap between V and B).
    assert_eq!(macos_keycode_to_linux(0x0A), 0);
}

#[test]
fn no_two_keys_are_the_same() {
    let mut seen: Vec<u16> = Vec::new();
    for mac in 0..256 {
        let linux = macos_keycode_to_linux(mac);
        if linux != 0 {
            assert!(!seen.contains(&linux));
            seen.push(linux);
        }
    }
    assert_eq!(seen.len(), 26 + 14 + 9 + 12);
}

#[test]
fn dispatch_op_size() {
    // Ensure MainThreadOp is reasonably sized for dispatch_async_f.
    assert!(std::mem::size_of::<MainThreadOp>() < 256);
}

#[test]
fn repeated_keys_and_unknown_events() {
    let mut display = DisplayMacos::new(true).unwrap();
    display.receive(input(1, 30, 2));
    display.receive(input(1, 30, 7));
    display.receive(input(9, 0, 1));
    display.receive(DisplayResponse::Error {
        message: "lost".to_owned(),
    });
    display.receive(DisplayResponse::SurfaceCreated { surface_id: 3 });
    display.next_event();
    assert_eq!(display.handle_next_event().unwrap().event.value, 2);
    display.next_event();
    assert_eq!(display.handle_next_event().unwrap().event.value, 1);
    display.next_event();
    assert!(display.handle_next_event().is_none());
    assert_eq!(display.next_event(), 0);
    assert!(display.handle_next_event().is_none());
    assert_eq!(display.next_event(), 3);
    assert!(display.handle_next_event().is_none());
    assert_eq!(display.next_event(), 0);
    assert!(display.handle_next_event().is_none());
}

#[test]
fn surfaces_are_planned() {
    let display = DisplayMacos::new(true).unwrap();
    let plan = display
        .create_surface(None, 32, 16, SurfaceType::Scanout)
        .unwrap();
    assert_eq!((plan.fb_size, plan.visible), (2048, true));
    let plan = display
        .create_surface(None, 32, 16, SurfaceType::Cursor)
        .unwrap();
    assert!(!plan.visible);
    assert_eq!(
        display.create_surface(Some(1), 32, 16, SurfaceType::Scanout),
        Err(GpuDisplayError::Unsupported)
    );
}

#[test]
fn helper_keeps_windows() {
    let mut helper = HelperState::new();
    let (op, goes_on) = bg_thread_fn(
        Some(DisplayRequest::CreateSurface {
        surface_id: 1,
        width: 32,
        height: 32,
        shm: 5,
        shm_size: 4096,
    }),
        true,
    );
    assert!(goes_on);
    assert!(matches!(
        helper.handle_op_on_main(op.unwrap()),
        WindowAction::Create {
            surface_id: 1,
            width: 32,
            height: 32,
            shm: 5,
            shm_size: 4096
        }
    ));
    assert!(matches!(
        helper.window_created(1, 32, 32, Ok(900)),
        DisplayResponse::SurfaceCreated { surface_id: 1 }
    ));
    match helper.window_created(2, 8, 8, Err("no memory".to_owned())) {
        DisplayResponse::Error { message } => assert_eq!(message, "mmap failed: no memory"),
        _ => panic!("expected an error"),
    }
    let (flip, _) = bg_thread_fn(Some(DisplayRequest::Flip { surface_id: 1 }), true);
    assert!(matches!(
        helper.handle_op_on_main(flip.unwrap()),
        WindowAction::Flip { window_handle: 900 }
    ));
    let (inject, _) = bg_thread_fn(Some(DisplayRequest::InjectKey {
        surface_id: 2,
        keycode: 0,
        pressed: true,
    }), true);
    assert!(matches!(
        helper.handle_op_on_main(inject.unwrap()),
        WindowAction::Nothing
    ));
    let refused = DisplayRequest::CreateSurface {
        surface_id: 3,
        width: 1,
        height: 1,
        shm: 6,
        shm_size: 4,
    };
    assert_eq!(bg_thread_fn(Some(refused), false), (None, true));
    helper.window_created(1, 64, 48, Ok(901));
    let surface = helper.surfaces[&1];
    assert_eq!((surface.width, surface.height), (64, 48));
    assert_eq!(surface.window_handle, 901);
    let (destroy, _) = bg_thread_fn(Some(DisplayRequest::DestroySurface { surface_id: 1 }), true);
    assert!(matches!(
        helper.handle_op_on_main(destroy.unwrap()),
        WindowAction::Destroy { window_handle: 901 }
    ));
    assert!(matches!(
        helper.handle_op_on_main(destroy.unwrap()),
        WindowAction::Nothing
    ));
    helper.window_created(7, 1, 1, Ok(907));
    helper.window_created(8, 1, 1, Ok(908));
    let (stop, goes_on) = bg_thread_fn(None, true);
    assert!(!goes_on);
    match helper.handle_op_on_main(stop.unwrap()) {
        WindowAction::Stop { mut windows } => {
            windows.sort();
            assert_eq!(windows, vec![907, 908]);
        }
        _ => panic!("expected the end"),
    }
    assert!(helper.surfaces.is_empty());
}

fn is_display<D: MacGpuDisplayExt>(_d: &D) -> bool {
    true
}

#[test]
fn event_devices_are_not_supported() {
    let mut display = GpuDisplay {};
    assert!(is_display(&display));
    assert_eq!(
        display.import_event_device(),
        Err(GpuDisplayError::Unsupported)
    );
}

#[test]
fn displays_need_their_helper() {
    assert_eq!(
        DisplayMacos::new(false).err(),
        Some(GpuDisplayError::Connect)
    );
    let display = DisplayMacos::new(true).unwrap();
    assert!(!display.pending_events());
    assert!(display.current_response.is_none());
    assert!(display.closed_surfaces.is_empty());
}
