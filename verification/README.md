# layertuber

Layered 2D puppets (OpenRaster images) that move with a face tracker.

- `src/` is the verified core: flattening the layer stack of an `.ora` image and
  ordering it for drawing, the mimetype check, the configuration file name and the
  matching of configurations to a layer, the
  visibility decision for a layer from its rule outcomes, key bindings, the
  tracker's command-line arguments, control messages and line protocol, the
  selection of tracking values, and the settings of the OBS source.
- `app/` is the program around it: argument parsing, the window and renderer,
  floating-point rules and transforms, archive and file reading, the tracker
  process, and the OBS plugin glue.
