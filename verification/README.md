# springfield

The rules of a small browser game in which Homer and Bart wander a lawn and
do chores for cash, written in Verus.

- `src/` is the verified library:
  - `sprite` — frames, animations, the `AnimationSet` that stores them by
    name, and `AnimationState`, which picks the frame to show;
  - `roster` — each character's animations and texture list, with the laws
    that every animated texture is listed and that no texture key repeats;
  - `manifest` — the texture list as the JSON array the page loads;
  - `game` — menu and play, chores, rewards and cash (`Chores`);
  - `text` — decimal numbering of keys and text comparison;
  - `assets` — the asset registry.
- `app/` is the WebAssembly side: WebGL drawing, the DOM, the JavaScript
  exports, and the floating-point positions and timers. Each frame it asks the
  library what happens next.
- `tests/` exercise the library on concrete values.
