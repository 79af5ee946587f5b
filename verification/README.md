# sp2

Building blocks of a Spout2 (Windows) / Syphon (macOS) compatible texture
sharing stack, with the protocol logic verified by Verus.

* `src/` is the verified library: pixel formats and frame geometry, strided
  row copies, the Spout2 shared memory wire formats and sender registry,
  the decisions of Spout senders, receivers and directories, the Syphon
  protocol vocabulary and the decisions of Syphon clients, servers and
  directories, and the CPU path between GPU textures and host memory.
  Every public function states its behaviour in its contract; the laws that
  relate several functions are public proof functions.
* `app/` is the platform layer around it: D3D11, shared memory, kernel
  objects and the registry on Windows; Core Foundation messaging,
  distributed notifications and IOSurfaces on macOS; wgpu textures; and the
  `Sender` / `Receiver` / `Directory` types that pick the backend of the
  platform. It calls the library for every decision.
* `tests/` exercises the library on concrete values.
