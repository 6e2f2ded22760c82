# stormchaser

The verified core of the Stormchaser Kubernetes runner and of its terminal UI.

- `src/` is the library, checked by Verus. On the runner side: version checks, Job names
  and specs, containers and volumes, the Job state machine, pod metrics, the markers a
  worker writes in its log, reading task events and the labels of orphaned Jobs, and
  configuration. On the UI side: run lists and
  their live updates, navigation keys, the filter, schema and form dialogs, the requests
  that dialogs and logins send, the command line, the run detail pane, and status and time display.
- `app/` is the program around it: NATS and Kubernetes I/O for the runner, HTTP, server-sent
  events and terminal drawing for the UI. It hands plain values to the library and carries
  out the actions the library returns.
- `tests/` exercises the library through its public interface.

Step state is stored on each Job as the step's JSON text. The library has no cipher for it,
so a runner configured with `STORMCHASER_STATE_ENCRYPTION_KEY` refuses to build Jobs rather
than store the state unencrypted, and an encrypted step found on an orphaned Job is replaced
by a stand-in step named after the Job.
