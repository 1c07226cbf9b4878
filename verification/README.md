# material_geek

Material 3 Expressive design tokens, motion schemes, themes and headless
component state, with every rule stated as a contract and proved by Verus.

## Layout

- `src/tokens/`: packed ARGB colors and the light and dark schemes,
  elevation levels, duration classes and spring tokens, the corner-radius
  scale, and the type scale. Tokens that are fractional in the design system
  are held exactly in fixed point: spring damping ratios in thousandths, type
  tracking in hundredths of an em; the fully rounded shape has no finite
  radius (`None`).
- `src/motion/`: the expressive and standard motion schemes and which spring
  each tempo and track uses.
- `src/theme.rs`: themes binding a color scheme to a motion scheme.
- `src/components.rs`: the 41-component registry, resting elevations,
  default shapes, and the properties and state of each component.
- `src/gallery.rs`: the selection state of the interactive gallery and what
  each tap does.
- `src/render/`: shelf packing of glyphs into the glyph atlas, and growth of
  the instance buffers.
- `app/`: the headless demo, the `f32` spring physics and easing curve, the
  floating-point views of the tokens, the component properties that carry
  fractions, serializable copies of the theme types, and the wgpu quad and
  glyph renderer with the interactive gallery and its desktop window
  (`gallery REGULAR.ttf MEDIUM.ttf`).
