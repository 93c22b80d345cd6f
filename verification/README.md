# ramp

Ramp creates, builds, signs and deploys Rust apps for iOS, Android, macOS,
Windows, Linux and the web from one project.

- `src/` is the library, verified with Verus: the session and its `.ramp`
  configuration, project templates, build plans, reading what device tools
  print (bundle identifiers, device identifiers, provisioning profiles, Android
  manifests), icon conversion, signing and keychain setup, and the installer's
  decisions. `src/laws.rs` holds the properties that relate several operations.
- `app/` is the command-line program around it: it runs the external tools,
  reads and writes files, and asks the user, following the library's plans.
- `tests/` runs the library on concrete inputs.
