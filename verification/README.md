# mcu_userspace

Userspace services of a small management controller, verified with Verus:
blocking sequences of system calls, the drivers built on them (flash, log,
memory transfers, two mailboxes, alarm), message transports, the firmware update
service with its client, the periodic self-test, and the attestation responders.

`src/` is the library. It performs no input or output. Whatever has to talk to
the kernel, to a peer or to a device is a state machine (`machine::Machine`): it
says what it asks for next and is resumed with the answer. Single calls are
split in two functions, one before the call and one (`.._done`, `.._reply`) that
reads what came back. The contracts say what each function returns and changes on
every input; of a checksum word that is read in place they say what was read and
what follows from either outcome, since whether it can be read also depends on
where it lies in memory. What holds of whole runs is stated in the proof
functions whose names start with `law_`.

What all services of a program share (whether the update service is running, the
state of the periodic self-test, the context of a download) is handed to the
functions that look at it or change it.

`app/` runs the machines on the emulator board. All calls into the crates of the
board are in `app/platform.rs` and `app/device.rs`.

`tests/` runs the library on concrete values.
