# Milo

Milo is a small GTK4 desktop companion for Hyprland. It reacts to what the
user is doing: it sleeps when the compositor reports the user idle, looks
curious when the focused application changes category, grows concerned during
a long YouTube Shorts or Instagram Reels session, offers a one-time
"Still scrolling?" intervention, tells a short persistent story, and now and
then plays with a ball of yarn.

## Layout

- `src/` is the library, written in Verus. Every decision Milo makes lives
  here with a contract, and the properties that span several operations are
  stated and proved as lemmas:
  - `activity`: window classification, Hyprland event parsing, and the
    activity context that reports category transitions.
  - `animation`: the animation states, their frame schedules and the playback
    cursor.
  - `behavior`: the authoritative behavior model (priorities, generation
    guards, cozy activities) and the delay generator.
  - `distraction`: continuous distraction sessions and their thresholds.
  - `intervention`: the still-scrolling intervention lifecycle.
  - `narrative`, `world`: story progress and the photograph.
  - `presentation`: window layouts, the command-line mode, and the dialogue
    queue.
  - `browser`, `browser_listener`, `native_host`: the browser protocol, its
    JSON encoding and byte framing, and the native host's forwarding policy.
  - `text`: character-level text helpers.
- `tests/` exercises the library on concrete values.
- `app/` is the program: GTK widgets, timers, sockets, the Wayland idle
  listener, JSON decoding and progress storage. Started as
  `milo-native-host`, the same program is Firefox's native messaging host.
