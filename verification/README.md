# player

The decisions of a GStreamer media player, written in Verus.

`src/` talks to nothing. Its operations yield actions for the media engine and the hub; an
operation whose course depends on what came of its actions is a `Procedure`, which is driven from
outside. Objects of the engine go by handles, floating-point settings by their bit patterns.

- `message`: commands, events, messages to the hub
- `action`: what is asked of the engine and the program
- `plan`, `procedure`: building the sinks, the player and its video branches, and taking branches
  down
- `inner`, `player`: the player's state, its operations and its event loop
- `text`: numbers in texts
- `laws`: what holds of the operations together

`app/` performs the actions on GStreamer and runs the event loop on tokio.
