# ayagami

A verified core for loading and checking Live2D `.moc3` model data, written in Verus.
Verus checks every function under `src/`: that it cannot panic or overflow and, where it
states one, that it meets its contract. Seven small wrappers around std calls (`format!`,
`str::from_utf8`, `Arc::clone`, `Arc::ptr_eq`, `Arc::make_mut`) are trusted rather than
proved. `app/` holds the floating-point runtime (pose values, physics) and the
serde/thiserror types around it. Deforming a model (float) and the GPU side of rendering
are not part of this crate; the renderer's integer decisions are (`render`, `frame`).

## Layout of `src/`

- `version`, `schema`, `model` — file versions and their passes, the classes and field
  sections that each version holds, and the column store of a parsed model with one
  typed view per class.
- `types`, `classes`, `error` — indices, raw words, identifiers and the enumerations
  stored in the file, with their decoders and the error type.
- `refs`, `checks`, `validate`, `post` — validation: every index lands inside the array it
  names, every object passes the consistency check of its class, and the offscreen part
  blend maps mirror those of their parts. Each function states exactly when it fails and
  which failure it reports.
- `views`, `items` — reading a validated model: draw groups, clip lists, typed deformers,
  the form that a set of keypoint indices selects, glue coordinates, keypoints.
- `pose`, `key_order` — the table of pose keys built from a model, poses over it, and the
  order of keys (parameters before parts, then by name).
- `driver` — the float-free decisions of driving a model: the stable depth sort, the
  drawing order with offscreen branches, the form positions of the corners of a keypoint
  cell, and the spreading of updates along glues.
- `render` — the renderer's integer decisions: blend state, write mask and shader entry
  of a blend configuration, whether an offscreen target is needed, and the grouping of
  clip lists into shared clip sets.
- `frame` — the per-frame decisions of rendering: what changed, whether the frame can be
  skipped, which clip sets are in use through the visible offscreen branches, which art
  meshes to upload and which clip masks to redraw, and how the frame is composed. The
  floating-point comparisons (opacity not zero, transform changed) come in as booleans.
- `meta`, `physics` — plain data types of the model settings and physics inputs, and which
  physics outputs drive a pendulum.

## Laws

Besides the contracts of the functions, `src/` proves laws that relate them, among them:
newer versions never hold fewer classes or sections (`schema::lemma_counts_grow`),
decoding a blend configuration is stable under re-encoding
(`classes::lemma_blend_config_roundtrip`), a value put into a pose is what a later get
returns (`pose::lemma_pose_put_get`), the depth sort is stable
(`driver::lemma_stable_order_sorted`) and the glue spreading yields the least closed set
(`driver::lemma_least_closed_cover_unique`).
