# tinymist

Export and preview tasks of a document server for Typst, verified with Verus.

- `src/` decides and computes, and everything in it is verified: the requests and answers of a
  webview and the steps of its actor, what a finished compilation sets going, the course of an
  export and of the making of its data, queries and their formats, colors, and the course of
  benchmarks. Calls into other crates stand behind small functions whose contracts say what is
  relied upon.
- `app/` is the server around it: channels, files, compilation, rendering to pixels, and SVG and
  HTML of documents on which their writers could panic.
- `tests/` runs the library, with those other crates, on concrete values.

Where the outside world has a say, the library keeps a state. The server does what the state asks
for and hands back what came of it. Laws over such courses stand next to them as public proof
functions, named `lemma_...`.

Floating-point numbers appear in the library only as the texts in which they are written.
