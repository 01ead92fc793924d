# grindd-core

The verified core of `grindd`, a small container engine. `src/` is the
library, proved with Verus; `app/` is the command line around it, which reads
and writes files, runs host commands and container processes, and asks the
library what to do at each step.

- `buildsys`: build files (`FROM`, `RUN`, `COPY`, `CMD`), cache keys and the
  layer cache.
- `daemon`, `keyed`: the container registry and the state directory.
- `engine`: the command-line operations, and running a container one decision
  at a time.
- `cgroups`, `network`, `storage`, `rootfs`, `runtime`: the files, commands and
  steps that limit, connect, mount and start a container, what each failure
  is reported as, and what the started process does to itself before it runs
  its command.
- `config`, `image`, `inspect`, `host`, `error`: configuration, the image
  store, the lifecycle report, the stand-alone host runner, errors.
- `text`, `paths`, `digest`, `command`: strings, paths, content digests, host
  commands, and how a sequence of host work goes on or stops.
