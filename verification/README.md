# cHiDeScaler-Neo: verified core

The decisions of a real-time window magnifier for Windows, written in Verus and proved against
their contracts. Nothing in `src/` talks to the system: functions take what is known of windows,
adapters, keys and settings as plain values, and give back what is to be done, as values and as
ordered lists of actions.

| Where | What |
| --- | --- |
| `session`, `hotkey_dispatch`, `hotkeys`, `hotkey_editor` | starting and stopping, global shortcuts |
| `panel`, `anchor`, `topmost`, `overlay`, `transition`, `redraw`, `housekeeping` | windows, their order and their appearance |
| `gpu`, `selection`, `handoff`, `backend`, `probe` | graphics adapters and inference backends |
| `chain`, `filters`, `presets`, `crop`, `resolution`, `display`, `options` | what is captured and how it is processed |
| `layout`, `dialogs`, `controls`, `notices`, `meter`, `stats`, `markup`, `images`, `help` | what the window shows |
| `language`, `locale_menu`, `text`, `utf16` | texts and languages |
| `launch`, `startup`, `diagnostics`, `actions` | the program around them |

Conventions: a time is a number of nanoseconds on one clock, a window is its handle, a floating-point
setting is the bits of the number, and a length of the layout is counted in parts of a point.
Public proof functions state what holds across calls.

`tests/` runs the library on concrete values. `app/` is the program around it: Win32, OpenGL and
the window toolkit. It needs Windows.
