# select_translate

The verified core of a desktop helper that translates the text selected in
any application: a global shortcut (or the automatic clipboard mode)
copies the selection, a provider (DeepL or Azure Translator) translates it,
and the result appears in the main window or in a popover near the cursor.

- `src/` — the library, verified with Verus:
  - `texto` — whitespace as `str::trim` defines it, text comparison;
  - `captura` — deciding whether the clipboard holds new text, the Ctrl+C
    keystroke sequence, the automatic clipboard monitor;
  - `popover` — choosing the monitor under the cursor and placing the
    popover inside it;
  - `notificacao` — the course of one translation (events, windows,
    provider call) as a state machine;
  - `configuracao`, `atalhos` — reading the settings store, the global
    shortcuts to register, the tray menu;
  - `traducao` — provider settings, language codes, the HTTP request of
    each provider and the decisions taken on its reply.
- `app/` — the Tauri shell that performs the I/O the library decides on
  (windows, clipboard, keyboard, store, HTTP, JSON).
- `tests/` — tests of the library.
