# workguard

A tray application that tracks a work day: minutes worked since the day started (less the
hard pauses of the schedule), minutes still owed to the daily target, and what the worker
should be doing now (working, in a pause, in a light pause, or done).

- `src/` is the verified library (Verus): time-of-day arithmetic over chrono, the schedule,
  the calculator, the state decision, the texts shown and notified, the stored time format,
  the tray's decisions (menu actions, the status updater's step) and the icon decoding.
- `app/` is the desktop shell: tauri setup, the tray menu, the async update loop, file storage
  with serde_json, notifications, and the serde copies of the library's state types.
- `tests/` runs the library on concrete values.
