use md5::{Digest, Md5};
use waywallen_layer_shell::arguments::{parse_arguments, Invocation, UsageReason};
use waywallen_layer_shell::dmabuf::{
    device_numbers, format_table, format_table_in_order, main_device, main_device_in_order,
};
use waywallen_layer_shell::globals::{
    bind_global, hot_plug, startup_error, GlobalBinding, GlobalKind, HotPlug, StartupError,
};
use waywallen_layer_shell::naming::{
    display_name, instance_id_from_digest, layer_instance_id, output_identity_key, output_part,
    OutputMetadata,
};
use waywallen_layer_shell::pointer::{
    pointer_scale, seat_step, Axis, AxisSource, Double, PointerAction, PointerCtx, PointerEvent,
    SeatStep,
};
use waywallen_layer_shell::window_states::{find_display, WindowStates};

fn double(value: f64) -> Double {
    Double {
        bits: value.to_bits(),
    }
}

fn texts(values: &[&str]) -> Vec<String> {
    values.iter().map(|value| value.to_string()).collect()
}

#[test]
fn parts_are_trimmed_as_the_standard_library_trims() {
    assert_eq!(output_part(None), "");
    assert_eq!(output_part(Some("")), "");
    assert_eq!(output_part(Some("  DP-1\t\n")), "DP-1");
    assert_eq!(output_part(Some("\u{3000}a b\u{a0}")), "a b");
    for text in ["", " \t ", "  DP-1\t\n", "\u{3000}a b\u{a0}"] {
        let once = output_part(Some(text));
        assert_eq!(output_part(Some(once)), once);
    }
    for code in 0..=0x10ffffu32 {
        if let Some(c) = char::from_u32(code) {
            let text = c.to_string();
            assert_eq!(output_part(Some(&text)).is_empty(), c.is_whitespace());
        }
    }
}

#[test]
fn identity_lists_what_is_known() {
    let blank = OutputMetadata {
        name: Some(" "),
        description: None,
        make: Some(""),
        model: None,
    };
    assert_eq!(output_identity_key(&blank, 0), "global=0");
    assert_eq!(output_identity_key(&blank, 4294967295), "global=4294967295");
    let known = OutputMetadata {
        name: Some(" DP-1 "),
        description: Some("Dell Inc. U2720Q"),
        make: None,
        model: Some("U2720Q"),
    };
    let key = "name=DP-1|description=Dell Inc. U2720Q|make=|model=U2720Q";
    assert_eq!(output_identity_key(&known, 7), key);
    assert_eq!(
        layer_instance_id(&known, 7),
        format!("layer-{:x}", Md5::digest(key.as_bytes()))
    );
    assert_eq!(layer_instance_id(&known, 7), layer_instance_id(&known, 8));
    assert_ne!(layer_instance_id(&blank, 7), layer_instance_id(&blank, 8));
    assert_eq!(layer_instance_id(&known, 7).len(), 38);
}

#[test]
fn instance_id_spells_the_digest_in_hex() {
    let digest = [
        0x00, 0x01, 0x0f, 0x10, 0x7f, 0x80, 0x9a, 0xbc, 0xde, 0xf0, 0xff, 0xa5, 0x5a, 0x42, 0x24,
        0x99,
    ];
    assert_eq!(
        instance_id_from_digest(&digest),
        "layer-00010f107f809abcdef0ffa55a422499"
    );
    let blank = OutputMetadata {
        name: None,
        description: None,
        make: None,
        model: None,
    };
    let mut hasher = Md5::new();
    hasher.update(b"global=3");
    assert_eq!(
        layer_instance_id(&blank, 3),
        format!("layer-{:x}", hasher.finalize())
    );
}

#[test]
fn nameless_outputs_are_called_by_prefix_and_number() {
    assert_eq!(display_name("output", Some("eDP-1"), 3), "eDP-1");
    assert_eq!(display_name("output", Some(""), 3), "output-3");
    assert_eq!(display_name("output", None, 120), "output-120");
    assert_eq!(display_name("output", Some(" "), 3), " ");
}

#[test]
fn main_device_is_read_in_machine_order() {
    let device: u64 = (226 << 8) | 128;
    assert_eq!(device_numbers(device), (226, 128));
    assert_eq!(main_device(&device.to_ne_bytes()), Some((226, 128)));
    assert_eq!(
        main_device_in_order(&device.to_le_bytes(), true),
        Some((226, 128))
    );
    assert_eq!(
        main_device_in_order(&device.to_be_bytes(), false),
        Some((226, 128))
    );
    assert_eq!(main_device(&device.to_ne_bytes()[..7]), None);
    let mut long = device.to_ne_bytes().to_vec();
    long.push(9);
    assert_eq!(main_device(&long), Some((226, 128)));
    for (major, minor) in [
        (0, 0),
        (u32::MAX, u32::MAX),
        (0x1234_5678, 0x9abc_def0),
        (0xfff, 0xff),
        (0x1000, 0x100),
    ] {
        assert_eq!(device_numbers(libc::makedev(major, minor)), (major, minor));
    }
}

#[test]
fn format_table_entries_skip_padding_and_leftovers() {
    let mut table = Vec::new();
    table.extend_from_slice(&0x34325258u32.to_ne_bytes());
    table.extend_from_slice(&[0xaa; 4]);
    table.extend_from_slice(&0x0100_0000_0000_0001u64.to_ne_bytes());
    table.extend_from_slice(&7u32.to_ne_bytes());
    table.extend_from_slice(&[0; 4]);
    table.extend_from_slice(&8u64.to_ne_bytes());
    table.extend_from_slice(&[1, 2, 3]);
    assert_eq!(
        format_table(&table),
        vec![(0x34325258, 0x0100_0000_0000_0001), (7, 8)]
    );
    assert_eq!(format_table(&table[..15]), Vec::new());
    let bytes = [1, 2, 3, 4, 0, 0, 0, 0, 1, 2, 3, 4, 5, 6, 7, 8];
    assert_eq!(
        format_table_in_order(&bytes, true),
        vec![(0x0403_0201, 0x0807_0605_0403_0201)]
    );
    assert_eq!(
        format_table_in_order(&bytes, false),
        vec![(0x0102_0304, 0x0102_0304_0506_0708)]
    );
}

#[test]
fn pointer_events_go_to_the_output_under_the_pointer() {
    let mut pointer = PointerCtx::new();
    assert_eq!(
        pointer.handle(PointerEvent::Motion {
            time_ms: 1,
            x: double(4.0),
            y: double(5.0)
        }),
        PointerAction::Ignore
    );
    assert_eq!(
        pointer.handle(PointerEvent::Enter {
            output: None,
            x: double(0.0),
            y: double(0.0)
        }),
        PointerAction::Ignore
    );
    assert_eq!(pointer.focus_output, None);
    assert_eq!(pointer.last_x, double(4.0));
    pointer.handle(PointerEvent::Enter {
        output: Some(3),
        x: double(1.0),
        y: double(2.0),
    });
    assert_eq!(
        pointer.handle(PointerEvent::Button {
            time_ms: u32::MAX,
            button: 272,
            pressed: Some(true)
        }),
        PointerAction::Button {
            output: 3,
            x: double(1.0),
            y: double(2.0),
            button: 272,
            pressed: true,
            time_us: 4_294_967_295_000
        }
    );
    assert_eq!(
        pointer.handle(PointerEvent::Button {
            time_ms: 0,
            button: 272,
            pressed: None
        }),
        PointerAction::Ignore
    );
    pointer.handle(PointerEvent::AxisSource {
        source: Some(AxisSource::Finger),
    });
    assert_eq!(
        pointer.handle(PointerEvent::Axis {
            time_ms: 2,
            axis: Some(Axis::Vertical)
        }),
        PointerAction::Axis {
            output: 3,
            x: double(1.0),
            y: double(2.0),
            axis: Axis::Vertical,
            source: AxisSource::Finger,
            time_us: 2_000
        }
    );
    pointer.handle(PointerEvent::AxisSource { source: None });
    assert_eq!(pointer.axis_source, AxisSource::Wheel);
    assert_eq!(
        pointer.handle(PointerEvent::Axis {
            time_ms: 2,
            axis: None
        }),
        PointerAction::Ignore
    );
    assert_eq!(
        pointer.handle(PointerEvent::Motion {
            time_ms: 3,
            x: double(9.0),
            y: double(8.0)
        }),
        PointerAction::Motion {
            output: 3,
            x: double(9.0),
            y: double(8.0),
            time_us: 3_000
        }
    );
    pointer.handle(PointerEvent::Leave);
    assert_eq!(
        pointer.handle(PointerEvent::Button {
            time_ms: 4,
            button: 1,
            pressed: Some(false)
        }),
        PointerAction::Ignore
    );
}

#[test]
fn pointer_scale_prefers_the_preferred_one() {
    assert_eq!(pointer_scale(180, 2), (180, 120));
    assert_eq!(pointer_scale(0, 2), (2, 1));
    assert_eq!(pointer_scale(0, 0), (1, 1));
    assert_eq!(pointer_scale(0, -4), (1, 1));
    assert_eq!(seat_step(true, false), SeatStep::Acquire);
    assert_eq!(seat_step(false, true), SeatStep::Release);
    assert_eq!(seat_step(true, true), SeatStep::Keep);
    assert_eq!(seat_step(false, false), SeatStep::Keep);
}

#[test]
fn globals_are_bound_at_a_version_both_sides_speak() {
    let bound = |interface: &str, version| bind_global(&interface.to_string(), version);
    for (interface, kind, newest) in [
        ("wl_compositor", GlobalKind::Compositor, 6),
        ("zwlr_layer_shell_v1", GlobalKind::LayerShell, 4),
        ("wp_viewporter", GlobalKind::Viewporter, 1),
        (
            "wp_fractional_scale_manager_v1",
            GlobalKind::FractionalScaleManager,
            1,
        ),
        ("wl_output", GlobalKind::Output, 4),
        ("wl_seat", GlobalKind::Seat, 5),
    ] {
        assert_eq!(
            bound(interface, 100),
            Some(GlobalBinding {
                kind,
                version: newest,
                feedback: false
            })
        );
        assert_eq!(bound(interface, 1).unwrap().version, 1);
    }
    assert!(bound("zwp_linux_dmabuf_v1", 5).unwrap().feedback);
    assert!(!bound("zwp_linux_dmabuf_v1", 3).unwrap().feedback);
    assert_eq!(bound("wl_shm", 1), None);
    let plug = |interface: &str, known| hot_plug(&interface.to_string(), 9, known);
    assert_eq!(plug("wl_output", false), HotPlug::Output { version: 4 });
    assert_eq!(plug("wl_output", true), HotPlug::Ignore);
    assert_eq!(plug("wl_seat", false), HotPlug::Seat { version: 5 });
    assert_eq!(plug("wl_compositor", false), HotPlug::Ignore);
}

#[test]
fn start_needs_compositor_layer_shell_and_output() {
    assert_eq!(
        startup_error(false, false, 0),
        Some(StartupError::NoCompositor)
    );
    assert_eq!(
        startup_error(true, false, 0),
        Some(StartupError::NoLayerShell)
    );
    assert_eq!(startup_error(true, true, 0), Some(StartupError::NoOutput));
    assert_eq!(startup_error(true, true, 1), None);
}

#[test]
fn command_line_is_read_from_left_to_right() {
    match parse_arguments(&texts(&[])) {
        Invocation::Run {
            socket,
            name_prefix,
        } => {
            assert_eq!(socket, None);
            assert_eq!(name_prefix, "output");
        }
        other => panic!("{other:?}"),
    }
    match parse_arguments(&texts(&[
        "--socket", "/a", "--name", "--help", "--socket", "/b",
    ])) {
        Invocation::Run {
            socket,
            name_prefix,
        } => {
            assert_eq!(socket.as_deref(), Some("/b"));
            assert_eq!(name_prefix, "--help");
        }
        other => panic!("{other:?}"),
    }
    assert!(matches!(
        parse_arguments(&texts(&["--version", "--socket"])),
        Invocation::Version
    ));
    for help in ["-h", "--help"] {
        assert!(matches!(
            parse_arguments(&texts(&[help])),
            Invocation::Usage(UsageReason::Asked)
        ));
    }
    assert!(matches!(
        parse_arguments(&texts(&["--name", "a", "--socket"])),
        Invocation::Usage(UsageReason::SocketNeedsValue)
    ));
    assert!(matches!(
        parse_arguments(&texts(&["--name"])),
        Invocation::Usage(UsageReason::NameNeedsValue)
    ));
    match parse_arguments(&texts(&["--name", "a", "-x"])) {
        Invocation::Usage(UsageReason::Unknown(argument)) => assert_eq!(argument, "-x"),
        other => panic!("{other:?}"),
    }
}

#[test]
fn window_states_keep_the_last_flags_of_each_display() {
    let mut states = WindowStates::new();
    assert_eq!(states.get(&"DP-1".to_string()), None);
    states.insert("DP-1".to_string(), 1);
    states.insert("DP-2".to_string(), 2);
    states.insert("DP-1".to_string(), 3);
    assert_eq!(states.get(&"DP-1".to_string()), Some(3));
    assert_eq!(states.get(&"DP-2".to_string()), Some(2));
    assert_eq!(states.entries.len(), 2);
    let names = texts(&["a", "b", "b"]);
    assert_eq!(find_display(&names, &"b".to_string()), Some(1));
    assert_eq!(find_display(&names, &"c".to_string()), None);
}
