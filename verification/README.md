# wgpu_scene

The state and decisions of a small wgpu scene viewer, verified with Verus:
a camera that orbits a 10 by 10 grid of instanced cubes, steered by the keyboard.

- `src/input.rs`: keyboard events, the camera controller's held keys, and the
  ordered movement steps that one camera update performs.
- `src/state.rs`: window size, surface configuration, frame counting, and the
  reaction to each window event.
- `src/instances.rs`: the instance grid and the instance buffer's vertex layout.
- `src/compare.rs`: the depth comparison function and its numeric codes.
- `app/`: the window, the GPU resources, and the floating-point camera and
  instance math, built on winit, wgpu and glam.
