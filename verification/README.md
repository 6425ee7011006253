# rsloop

An event loop for Python's asyncio. What the loop decides is a library with
proved contracts; what it does to the outside world is a thin driver around it.

## Layout

- `src/` is the library. It holds the queues, buffers, parsers, state machines
  and rules of the loop, its streams, transports, servers and subprocesses.
  Verus proves its contracts.
- `app/` is the Python extension module. It owns sockets, threads, child
  processes and Python objects, and performs what the library decides.
- `tests/` runs the library on concrete values.

## How the library is written

A Python object is a number (`objects::ObjectId`) to the library. Where the
logic has to call Python, wait or read from a socket, the library hands out the
next action and takes back what came of it: a function from state and event to
next state and action. Its contract says what that action and that state are,
over specification functions and the views of its arguments.

Laws that span several calls are public proof functions whose names begin with
`law_`. They are stated over the same specification functions as the contracts.

## What is trusted

- `memchr::memmem::find` finds the first occurrence of a byte string
  (`src/separators.rs`).
- The unbounded channel of `crossbeam-channel` takes what is sent to it, in
  order, or hands everything back once the receiving end is gone; its two ends
  belong together (`src/loop_core.rs`).
- The numbers that `libc` gives to errors, signals, address families and
  descriptor flags (`src/os_constants.rs`). They are those of Linux on x86 and
  ARM.
