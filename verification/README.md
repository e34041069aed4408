# akispace

The verified core of AkiSpace, a desktop-clone and RDP pre-flight tool for
Windows Home editions: the child-session mouse pipe (frame format,
handshake, whitelist DACL, nonce files), relative-mouse batching and
replay, the cursor clip, the environment checks and fixes, settings with a
protected password, log routing and buffering, and the tray application's
decisions.

- `src/` is the library, written in Verus; every function carries a
  contract that Verus proves. Calls into `base64`, `uuid`, `rand`,
  `crossbeam-channel` and a few std functions stand behind small trusted
  wrappers whose contracts are documented where they are declared.
- `tests/` exercises the library on concrete values.
- `app/` is the program around it: the `--fix-env` console, the
  `--agent` child-session replayer, the named-pipe listener, files on disk,
  DPAPI and the registry. Windows-only parts are compiled on Windows.
