# ecmascript_futex

Futex operations (`Atomics.wait`, `Atomics.notify`) on ECMAScript shared
memory, with their decision logic verified by Verus.

- `src/` is the verified library:
  - `condvar_table.rs`: the table of condition variables used where the
    platform has no futex for a width: which entry an address maps to, the
    waiter bookkeeping of an entry (`wait`, `finish_wait`), the plans of
    `notify_all` and `notify_many`, and the laws that tie them to the set of
    waiting threads.
  - `outcome.rs`: how the results of the platform primitives (`FUTEX_WAIT`,
    `_umtx_op`, `os_sync_wait_on_address`, `WaitOnAddress`) read as wait
    outcomes and woken counts, and the limits put on their arguments.
- `app/` is the unverified shell: the `ECMAScriptAtomicWait` trait for
  `ecmascript_atomics::Racy`, the system calls, and the mutexes and condition
  variables that the table's decisions drive.
- `tests/` exercises the library on concrete values.
