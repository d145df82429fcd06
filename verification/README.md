# jarvis

The decision logic of the Jarvis assistant runtime, verified with Verus:
how a message is routed (mentions, keyword rules, session choice, agent
choice), the sandbox and scope checks in front of tools, and the state
machines of orchestration (workspace locks, conversation ownership, steers,
interrupts, command runs, task trees, walkthrough approval, regression runs,
handoffs, tentacle files, plugins).

- `src/` is the verified library. Timestamps are plain integers
  (milliseconds), paths are strings, and hint weights are thousandths.
- `app/` is the runtime around it: child processes, files, async seams,
  JSON wire formats, and session scoring and route confidence, which work on
  floating point.
- `tests/` exercises the library on concrete scenarios.
