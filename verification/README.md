# winisland_window

The window layer of WinIsland, a "dynamic island" for the Windows desktop,
as a Verus-verified library with a thin unverified shell.

- `src/` is the verified library. Every function states its behaviour in
  `requires`/`ensures` over mathematical models, and the laws that relate
  several functions are public proof functions (`lemma_*`).
  - `island_input`, `frame_pacing`, `flags`, `display`, `media`: the island
    window's decisions (pointer state machine, hiding, frame rates, media
    sources, monitors).
  - `settings_page`, `page_history`, `number_input`, `resource_editor`,
    `plugins`, `plugin_sync`, `caches`: the settings window's pages, their
    navigation and editors, the plugin panel and marketplace, and caches.
  - `markdown`, `markdown_events`: the block parser for plugin readmes, fed
    by `pulldown-cmark` through one trusted wrapper.
  - `pixel`, `surface_format`, `text`: pixel conversion for the software
    renderer, the swapchain's colour format, and small text helpers.
- `app/` is ordinary Rust around the library: winit event plumbing, clocks
  and frame deadlines, and process-wide state. Geometry, drawing and the
  platform layer work on floating-point values and live outside the library.
- `tests/` runs the library on concrete inputs.
