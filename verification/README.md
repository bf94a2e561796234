# launcher_prestarter

The decision logic of a prestarter for GravitLauncher, verified with Verus:
which launcher jar to start (downloaded or appended to the executable), the
checksums it is held to, where the Java runtime and the jar are stored, and
the order of the steps that install Java before the launcher is started.

- `src/` is the verified library: `text`, `checksum`, `path`, `launcher`,
  `runner`, `prestart`; the step functions `manifest` (finding the remote
  manifest), `jar` (providing the launcher jar) and `prestart::next_step`;
  and `laws` and `jar_laws` for properties that span functions.
- `app/` is the desktop shell around it: network, files, processes and the
  window.
- `tests/` runs the library on concrete values.
