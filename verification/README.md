# combatlog

Uploads World of Warcraft combat logs, and those of the other games, to the RPGLogs family of
sites: finished logs in batches, growing logs while the game writes them.

The library in `src/` holds the logic, verified with Verus. It decides what is sent, when it is
sent again, how answers are read, and which step follows which; it does no I/O. The desktop
application in `app/` performs the steps.

| Module | What it holds |
| --- | --- |
| `upload` | a finished log from its first batch to the end of its report |
| `live` | a live log from its start to its clean-up |
| `tail` | following the newest log of a directory |
| `growing` | what of a growing log is uploaded by the time a stop is done |
| `rotation` | what of a log is uploaded before another one is followed |
| `segments` | committing fights of a live log, and previewing the one that goes on |
| `chunk`, `lines` | reading a growing file, and splitting bytes and text into lines |
| `wcl`, `multipart`, `retry` | requests to a site, their answers, and when to try again |
| `parser_page`, `sidecar` | finding the site's parser, and talking to the process that runs it |
| `fights`, `json` | what the parser collects, and how it is written for the site |
| `log_file`, `game` | which files are logs and what their names tell; the known sites |
| `progress`, `overlay` | what is shown; the window and its hotkey |
| `text`, `numbers`, `captures` | building blocks |
| `outside` | the items of other crates and of std that are taken on trust |

Each of the step-by-step modules has a transition function over a mathematical state, an
executable `step` proved to follow it, and laws about every run, proved by induction.
