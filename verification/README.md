# reocli

A library and two programs for Reolink cameras: `reocli`, a command line, and `reocli-mcp`,
which answers the calls of a tool protocol. The library says what to send to a camera, what
its answers mean, and how to move the camera to a position. It is written in Verus: each
function states in its contract what it returns, and Verus proves that it does.

## Layout

- `src/` is the library.
  - `text`, `json`: texts, numbers in texts, JSON values.
  - `natural`, `double`: numbers of any size, and arithmetic with the rounding of doubles.
  - `error`, `command`, `model`: errors, the commands of the camera, what it reports.
  - `exchange`: operations as conversations. An operation is a function from the answers so
    far to the next request or the result.
  - `reolink/`: the requests and answers of both interfaces of the camera, logins and
    sessions.
  - `usecases/`: what the programs do, among it calibration and the loop that moves a camera
    to a position.
  - `interfaces/`: the command line, the tool protocol, the environment.
- `app/` is the shell around it: it sends requests, reads the clock, the environment and
  files, and holds the arithmetic on floating point numbers.
- `tests/` are the tests of the library.

Properties that relate several functions are proof functions whose names begin with `law_`.

## Environment

| Variable | Meaning |
| --- | --- |
| `REOCLI_ENDPOINT` | The camera's address; `https://camera.local` by default. |
| `REOCLI_TOKEN` | A token to log in with. |
| `REOCLI_TOKEN_CACHE_PATH` | The file that keeps the token of the last login. |
| `REOCLI_USER`, `REOCLI_PASSWORD` | A user, `admin` by default, and the password. |
| `REOCLI_CALIBRATION_DIR` | The directory of calibrations. |
| `REOCLI_PTZ_BACKEND` | `cgi`, the default, or `onvif`. |
| `REOCLI_ONVIF_DEVICE_SERVICE_URL` | The address of the ONVIF device service. |
| `REOCLI_ONVIF_PROFILE_TOKEN` | The ONVIF profile to move. |
| `REOCLI_ONVIF_PORT` | The port of the default device service; 8000 by default. |

Credentials are tried in this order: the token, the kept token, user and password, none.

## Commands

```
reocli get-dev-info
reocli set-time 2026-02-25T10:00:00Z
reocli snap 0 --out snapshots/front-door.jpg
reocli ptz move left --speed 6 --duration 300 --channel 0
reocli ptz calibrate auto --channel 0
reocli ptz set-absolute 1500 -180 --tol-count 12 --timeout-ms 25000 --channel 0
reocli-mcp reolink.ptz_get_absolute 0
```

`ptz set-absolute` moves the camera until it is within the tolerance on both axes, or the time
is over. `reocli help` lists all commands, and `reocli-mcp mcp.list_tools` all tools.
