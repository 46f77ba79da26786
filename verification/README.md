# platform_napi

The logic of a Node native module for a desktop shell, verified with Verus.

- `src/` is the library: the conversion of raw keyboard and mouse reports into
  input events (`interactive`, `keys`, `flags`, `event`), the machines that
  find the desktop's worker windows and attach windows to them (`desktop`,
  `win32_desktop`), the shutdown blocker (`power`), wide strings (`wide`) and
  the parsing of the system version (`version`). Every function carries a
  contract that Verus proves; the laws of the library are proof functions
  whose names start with `law_`.
- `app/` is the module that Node loads: it exports the functions to
  JavaScript and performs the system calls that the library's machines ask
  for.
- `tests/` runs the library on concrete values.
