# ndisrc

A live source element that receives audio and video over NDI.

- `src/` is the verified library. `NdiSrc` holds the element's properties, what it
  knows about the streams it receives and the handle that controls its receiver;
  its methods decide what happens at each step. `laws.rs` states what holds of the
  element as a whole.
- `tests/` runs the library on concrete values.
- `app/` is the GStreamer side: it registers the element and carries out what the
  library decides. The receiver is brought by a backend.
