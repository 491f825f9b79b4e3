# waywallen-layer-shell

The presentation core of a Wayland layer-shell wallpaper client, written in Verus,
and the program around it.

The client keeps one background surface per output, receives wallpaper frames from
a daemon and draws them through a Vulkan swapchain. `src/` decides: it holds the
state of each output, session and presenter, says what has to be done next, and
takes over what came of it. All of it is verified; two calls, of the MD5 digest and
of the native byte order, are taken by their contracts. `app/` does: it talks to the
compositor, the driver and the daemon, and computes the floating-point numbers that
the shaders are given.

## Layout of the library

| Modules | What they hold |
| --- | --- |
| `presenter`, `setup`, `swapchain`, `construction`, `resources` | the presenter of a surface: its objects, how they are created, and the order in which they are taken down |
| `render`, `direct`, `content`, `effects`, `single`, `blank` | presenting a frame: frames of the producer and what is owed for them, which content is shown, blur and transitions with the numbers they are decided by, the black fallback |
| `guarantees` | what holds of presenting as a whole, whatever the graphics stack replies |
| `output`, `session`, `rebuild`, `schedule`, `event_loop`, `poll` | outputs, their sessions with the daemon, moving to another device, and the event loop |
| `device`, `dmabuf`, `globals`, `geometry`, `naming`, `pointer`, `window_states`, `arguments` | choosing a device, and reading what the compositor, the window watcher and the command line say |

Work that the graphics stack or the daemon does is written as a dialogue: a function
returns the next action, the program performs it, and the reply goes into the next
call. Handles are plain integers, times are nanoseconds on one monotonic clock, and
floating-point numbers are carried as their bits.
