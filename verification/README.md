# quadcastctl

Drives the lights of HyperX microphones (Quadcast S, Duocast, Quadcast 2) over USB on macOS and
Linux, from the command line or as a launchd agent.

The library, in `src/`, is written in Verus. Its contracts are proved, but for those of four small
functions that call outside code, which are believed: `display`, `user_config_dir` and
`user_home_dir` in `paths`, and `quoted` in `text`. Their comments say what is believed of each. The
program around the library, in `app/`, parses the arguments and talks to USB, files and processes.

- `color`: colors, their hexadecimal notation, brightness
- `config`: the persisted configuration; the commands `set` and `show`
- `device`: which microphones are known, which is taken, how it is opened; the command `list`
- `packet`: the packets and the control transfer that carries them
- `work`: what the loops ask of the outside and hear back
- `drive`, `solid`, `daemon`: the loops that keep the lights lit
- `launchd`: the agent; the commands `install`, `uninstall`, `start`, `stop`, `restart`, `status`
- `tasks`: the steps of commands that change files or the agent, and what a failed step does
- `paths`: where the files are
- `text`: numbers and quoted strings as text

Each loop is a state that asks for one piece of work at a time (send a packet, read the clock, load
the configuration) and is told what came of it. A command that changes files or the agent is a list
of tasks, and the library tells after each whether to go on. The program only performs that work.
