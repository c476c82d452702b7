# swiss_iperf

A TCP bandwidth meter in the style of iperf3, with its logic verified by Verus.

- `src/` is the verified library: the options and control messages
  (`opts`), the control-connection handshake and the roles of the two ends
  (`handshake`), the per-second accounting of the sending and receiving
  sides (`transfer`), the progress and summary reports (`report`), the
  error type (`error`) and the system-call result check (`util`).
- `app/` is the command-line tool around it: argument parsing, sockets,
  bincode on the control connection, the timing loops and printing.
- `tests/` run the library on concrete values.
