# backup_stream

The decisions of a backup stream endpoint: which regions of a store are
observed, when tasks are flushed and their checkpoints moved, how tasks of the
metadata store are registered and taken off, and what is done about errors.

The work of the endpoint alternates between asking a collaborator for something
and deciding on the reply. Each piece of work is a `Procedure` (`src/procedure.rs`):
a step says what it asks for, and `resume` takes the reply to the next step. The
library performs none of it. Whoever drives a procedure does what is asked for,
tests the reply with `accepts`, and goes on until the procedure is `done`.

| module     | work                                                            |
|------------|-----------------------------------------------------------------|
| `start`    | bringing an endpoint up                                         |
| `watch`    | reading and watching the tasks of the metadata store            |
| `register` | registering a task and its ranges, and taking it off            |
| `observe`  | starting, stopping, refreshing and retrying to observe a region |
| `scan`     | loading data from before a region was observed                  |
| `backup`   | backing up batches of commands                                  |
| `flush`    | flushing a task and moving its checkpoint                       |
| `fatal`    | stopping a task after an error                                  |
| `endpoint` | which of these a task of the endpoint is                        |

The contracts say, step by step, what is asked for and where each reply leads.
The `law_` functions state what holds of all runs, whatever the replies are;
those of the larger modules stand in files of their own (`src/observe_laws.rs`
and the like).

`app/` runs the endpoint on a tokio runtime against traits for its
collaborators.
