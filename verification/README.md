# renameit

Batch file renaming with a small desktop window. Each rename option rewrites a
file's stem; a `Renamer` holds the options chosen for one file and applies them
in a fixed order to the original name, so previewing twice gives the same name
and reverting brings the original back.

## Layout

- `src/` is the library, verified with Verus:
  - `renamer.rs`, `renamer_builder.rs`, `order.rs`: the renamer, its builder,
    and the order in which files are listed;
  - `batch.rs`: clearing an option from every file of a list and choosing
    options for chosen files in turn;
  - `reg.rs`, `name.rs`, `replace.rs`, `case.rs`, `remove.rs`, `add.rs`,
    `date.rs`, `folder.rs`, `number.rs`, `extension.rs`: the ten options, in
    the order a preview applies them, each with a spec function that states
    its result (regular expressions and date formatting are done by the
    `regex` and `chrono` crates behind trusted wrappers);
  - `paths.rs`: the path operations of std the library relies on (components,
    stem, extension, separators), behind trusted wrappers;
  - `text.rs`: character-sequence helpers and their lemmas;
  - `views/`: the state of the window's panels, how each change alters it, and
    the option each panel describes; the file list's selection and sorting.
- `tests/`: tests of the library on concrete values.
- `app/`: the window itself (iced), file system access, dialogs and the error
  messages; it calls the library for every decision.
