# nod_krai_gi

GM command parsing and help for a game server, and the indexing of the
excel and talent configs that the server loads, written in Verus.

- `src/` is the verified library. `parse::parse_command` reads a command
  line into a `command::Command`, or gives the message that says what is
  wrong and how the command is used; its contract is the whole of what it
  returns, stated over character sequences. `help` holds the help table and
  the `help` output. `talent` and `excel` index config rows. `laws` proves
  properties that span several functions.
- `app/` reads config files (serde, serde_json), holds the loaded talent
  table for the process, and turns number texts into `f32`.
- `tests/` runs the library on concrete inputs.

`field_map::FieldMap` keeps a command's named parameters as a list of
insertions in which the last one for a key gives its value, the same
meaning as inserting them into a `HashMap`. It is not a
`HashMap<String, String>` because vstd's `HashMap` specification holds
only for key types known to obey its key model, and `String` is not among
them, so nothing about such a map's contents could be proved.

`help_laws` proves, over the concrete help table, that every entry's
command words are recognised by `parse_command`, that every command it
accepts begins with some entry's command words, and that each entry's
group is the first word of its usage.
