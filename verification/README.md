# invisible_agent

The verified core of a desktop interview-assistant overlay.

- `src/` is the library, proved with Verus:
  - `ai::context` assembles the message list for the chat model;
  - `ai::client` holds the client configuration and the incremental decoder
    of the chat-completion event stream;
  - `audio` keeps the transcript (`transcribe`) and cuts microphone audio
    into chunks (`capture`);
  - `screen::capture` encodes screenshots;
  - `stealth::macos` plans the guarded setter calls of the window watchdog;
  - `shortcuts` decides what each global shortcut does;
  - `commands` is the application state behind the front end's commands.
- `app/` is the runtime around it: HTTP calls, microphone capture, the
  screenshot tool, AppKit calls and the command handlers.
- `tests/` exercises the library on concrete values.
