# wlt-helper

A login helper for the USTC campus network gateway (网络通) on Linux, with its
decision logic verified by Verus.

- `src/` is the verified library:
  - `config`: the configuration, its defaults, the repair of invalid values,
    and the paths of the configuration file and the log directory;
  - `probe`: the state machine that tells, from NetworkManager's answers,
    whether the active connection is a campus connection that needs a login;
  - `login`: the state machine of one login attempt (probe, configuration,
    keyring, gateway form) and the form it sends;
  - `daemon`: the client–daemon socket requests, how the daemon watches the
    network, and when it attempts a login;
  - `nm`: NetworkManager's connectivity codes;
  - `error`, `text`: the error type and small text operations.
- `app/` is the program around it: D-Bus, keyring, HTTP, sockets, files and the
  command line. One binary serves as the daemon when it runs under the name
  `wltsv` and as the client under the name `wltcmd`.
- `tests/` runs the library on concrete values.

## Configuration

`${XDG_CONFIG_HOME}/wlt-helper/config.toml`, or
`${HOME}/.config/wlt-helper/config.toml` where `XDG_CONFIG_HOME` is unset:

| key             | values                          | default                  |
| --------------- | ------------------------------- | ------------------------ |
| `name`          | text                            | (required)               |
| `type`          | 0 to 8                          | 0                        |
| `exp`           | 0, 3600, 14400, 39600, 50400    | 3600                     |
| `check`         | `"nm"`, `"ping"`                | `"ping"`                 |
| `ping.interval` | positive integer (seconds)      | 3600                     |
| `ping.site`     | absolute URI                    | `https://www.baidu.com/` |

An invalid `type`, `exp` or `ping.site` is reset to its default and the file is
written back; the other keys are kept as read.

## Commands

```bash
wltcmd set      # store user name and password, then request a login check
wltcmd login    # request a login check
wltsv &         # the daemon
```
