# unix_experiments

Small experiments on Unix process behaviour (process groups and `waitid`,
wait status words, writing to a read-only standard input, descriptor limits,
mapped copies, signal handlers), split in two:

- `src/` is the verified library: the decisions each experiment makes and the
  checks it applies to what the kernel reports, with Verus contracts.
  - `pgrp`: where a spawned child goes in the process-group hierarchy.
  - `spawn`: spawning a child (and optionally a short-lived grandchild) into a
    group, as a step function from observed event to next system call.
  - `reaper`: the `waitid` experiments, as step functions, with the proof that
    a faithful run finishes and that a finished run reaped exactly the
    spawned children.
  - `pidset`: sorting pids and comparing them as multisets.
  - `wait_status`: decoding `waitpid` status words through libc's `W*`
    functions, and the shell's `128 + signal` convention.
  - `verdicts`: the remaining small decisions (mapped copy, write to stdin,
    descriptor limits).
- `app/` is the program that performs the system calls and prints; run it with
  the experiment's name as first argument.
