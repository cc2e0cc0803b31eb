# avm1_function

Script-defined and native functions of an AVM1 player, verified with Verus.

- `src/` is the library. `text` and `function` make functions out of `DefineFunction2` actions;
  `call` says what a call amounts to, and `executable` sets one up; `function_object` allocates,
  calls and constructs function objects on the `heap`; `laws` states what holds of all of them.
- `tests/` runs the library on concrete values.
- `app/` is the unverified side: the loop that runs script and native code as the library asks, the
  way in from the `swf` crate's parsed actions, and code held in a `gc-arena` arena.
