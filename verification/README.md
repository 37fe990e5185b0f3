# misfire

The core of a small layered game engine, written in Verus.

- `src/` is the verified library:
  - `event`: event kinds and categories, the `Event` trait, the window, key and
    mouse button events, and casting an event to its concrete type;
  - `layer`: the `Layer` trait and the `LayerStack` that keeps overlays above
    layers and is gone through from the top down;
  - `lib.rs`: window properties, time steps, and `handle_event`, which offers an
    event to the layers until one handles it;
  - `input`: which keys and mouse buttons are held;
  - `render_api`: vertex buffer layouts, the OpenGL enumeration values, shader
    file splitting, vertex attribute parameters, surface configuration choice
    and image row flipping;
  - `renderer`: the rendering backends.
- `app/` is the sandbox program around it: the window and its event loop
  (winit), the OpenGL context (glutin), the OpenGL calls (gl), image loading
  (stb_image), cameras (glam) and the events that carry floating point values.
- `tests/` exercises the library on concrete values.
