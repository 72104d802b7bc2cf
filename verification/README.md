# workstate

Workstate brings the windows, containers, terminal sessions, editors and emulators of a working
environment into the state that its actions describe, and takes down again what it has started.

- `src/` is the library. It decides what is looked at, what is run, what counts as correct, what is
  recorded as owned, and what is undone after a failure, and Verus proves what it states of that. Work
  that waits for the outside world is written as a machine that takes a reply and gives the next step.
- `tests/` runs the library on concrete values.
- `app/` is the program around it: processes, files, sleeping, the Wayland session, and the loops that
  carry out the steps of the machines. Three readings of the outside world stand there and are not
  proved: which workspace of the desktop a target names, how the state of the system's Docker service is
  read, and where a shell is put in front of a command.

Types that hold texts or lists have a mathematical view of the same name with `View` at its end; the
contracts speak of those views. Functions named `law_...` state what holds across operations.
