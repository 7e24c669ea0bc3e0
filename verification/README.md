# maggie

A screen magnifier whose logic is verified with Verus.

`src/` is a library. It holds what the magnifier decides and computes on plain
values: settings and their limits, zoom levels and the wheel, panning and the
edges of the captured screen, hold-to-zoom, screenshot mode and its selection,
timers, the key legend and its font, the minimap, the pie menu and the history of
annotations, the composition of a frame, and the windowed variant. Every function
there states what it returns or changes, and Verus proves it. Laws that relate
several functions are public proof functions beside them.

`app/` is the program around the library: Wayland and EGL, windows on other
platforms, the toolkit of the settings, files, and floating point. Numbers pass
through the library as `number::Number`, the bits of a double: the library
compares, clamps and negates them exactly, and is handed the results of sums,
products and roots. Paths are the bytes that the system has for them.

`tests/` runs the library on concrete values.

## Modules

| Module | What it holds |
| --- | --- |
| `number`, `text`, `pixels`, `render`, `blend` | numbers, texts, images and blending |
| `config`, `config_window` | settings, the form that edits them, when they are saved |
| `state`, `zoom`, `view`, `timing` | zoom and its limits, the view, deadlines |
| `keys`, `input`, `pointer`, `engine` | what keys, buttons and motion do to a session |
| `screenshot`, `screenshot_mode`, `capture` | the selection, cutting it out, file names |
| `screencopy`, `surface`, `platform` | pictures of the screen, the size of the surface |
| `osd`, `legend`, `cursor`, `minimap`, `frame` | what a frame shows |
| `compose`, `passes` | drawing a frame without and with a graphics card |
| `pie`, `draw_mode` | the pie menu and annotations |
| `xp` | the windowed variant |
