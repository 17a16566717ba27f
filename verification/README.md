# egui_wgpu

Paints egui with wgpu on winit.

`src/` is the verified library. It decides what has to be asked of the graphics backend, with what
parameters and in what order, keeps what came of it, and takes the padding out of captured frames.
It makes no call that reaches the graphics driver: each method of `Painter` takes an event and
returns the action that comes next.

`app/` carries out these actions with wgpu and winit. The renderer that turns meshes and textures
into draw commands is supplied by its user.

| module         | content                                                              |
|----------------|----------------------------------------------------------------------|
| `painter`      | the painter                                                          |
| `model`        | events, actions, and what each event does to a painter               |
| `laws`         | what holds of a painter over several events                          |
| `render_state` | an opened device with its renderer, and the configuration            |
| `surface`      | how surfaces and depth textures are set up                           |
| `frame`        | the steps of a frame and their order                                 |
| `capture`      | the buffer that a texture is read through                            |
| `padding`      | the rows of a texture in a buffer                                    |
| `constants`    | the constants of wgpu as plain numbers                               |
| `backend`      | the objects of the graphics backend, which are passed on unseen      |
