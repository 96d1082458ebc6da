//! The two canned help tables: the keybinding reference shown in normal
//! mode and the command reference shown in command mode.

use vstd::prelude::*;

verus! {

/// The character sequences of a list of string slices, line by line.
pub open spec fn views_of(s: Seq<&str>) -> Seq<Seq<char>> {
    Seq::new(s.len(), |i: int| s[i]@)
}

/// The lines of the keybinding reference table.
pub open spec fn normal_help_lines() -> Seq<Seq<char>> {
    seq![
        "+------------+----------------------------+-----------------------------------------------------+"@,
        "| Key 1      | Key 2                      | Action                                              |"@,
        "+------------+----------------------------+-----------------------------------------------------+"@,
        "| 0-9 (many) | Key1 of action to perform  | Perform the specified action many times             |"@,
        "| q          | Esc                        | Quit                                                |"@,
        "| k/j        | Left/Right                 | Previous/Next Image                                 |"@,
        "| i/o        | Up/Down                    | Zoom in/out                                         |"@,
        "| r/R        |                            | Rotate image clockwise/counterclockwise             |"@,
        "| H, J, K, L | Shift + Up/Down/Left/Right | Pan left/down/up/right                              |"@,
        "| h          |                            | Flip image horizontally                             |"@,
        "| v          |                            | Flip image vertically                               |"@,
        "| b/w        | PageDown/PageUp            | Backward/Forward 10% of images                      |"@,
        "| g/G        | Home/End                   | First/Last Image (55G jumps to the 55th image)      |"@,
        "| m          |                            | Move image to destination folder (default ./keep)   |"@,
        "| c          |                            | Copy image to destination folder (default ./keep)   |"@,
        "| d          | Delete                     | Move image to OS specific trash location            |"@,
        "| D          | Shift + Delete             | Delete image from its location                      |"@,
        "| t          |                            | Toggle information bar                              |"@,
        "| f          | F11                        | Toggle fullscreen mode                              |"@,
        "| ?          |                            | Toggle help box                                     |"@,
        "| z          | Left Click                 | Toggle actual size vs scaled image                  |"@,
        "| Z          |                            | Center image                                        |"@,
        "| . (period) |                            | Repeat last action                                  |"@,
        "+------------+----------------------------+-----------------------------------------------------+"@,
    ]
}

/// The lines of the command reference table.
pub open spec fn command_help_lines() -> Seq<Seq<char>> {
    seq![
        "+-------+------------+----------+-------------------------------------+"@,
        "| Short | Long       | Argument | Action                              |"@,
        "+-------+------------+----------+-------------------------------------+"@,
        "| ng    | newglob    | Required | The new glob/directory/file         |"@,
        "| ?     | help       | None     | Toggle help box                     |"@,
        "| q     | quit       | None     | Quit                                |"@,
        "|       | sort       | Optional | The method to sort by               |"@,
        "| df    | destfolder | Required | New folder to move/copy images to   |"@,
        "| m     | max        | Required | New maximum number of files to view |"@,
        "+---------------------------------------------------------------------+"@,
        "| Sorting Options                                                     |"@,
        "+---------------------------------------------------------------------+"@,
        "| Alphabetical                                                        |"@,
        "| Date                                                                |"@,
        "| Size                                                                |"@,
        "| DepthFirst                                                          |"@,
        "| BreadthFirst                                                        |"@,
        "+---------------------------------------------------------------------+"@,
    ]
}

/// The keybinding reference shown by the normal-mode help overlay, one table
/// row per line.
pub fn normal_help_text() -> (v: Vec<&'static str>)
    ensures
        views_of(v@) == normal_help_lines(),
        v@.len() == 24,
{
    let mut v: Vec<&'static str> = Vec::new();
    v.push("+------------+----------------------------+-----------------------------------------------------+");
    v.push("| Key 1      | Key 2                      | Action                                              |");
    v.push("+------------+----------------------------+-----------------------------------------------------+");
    v.push("| 0-9 (many) | Key1 of action to perform  | Perform the specified action many times             |");
    v.push("| q          | Esc                        | Quit                                                |");
    v.push("| k/j        | Left/Right                 | Previous/Next Image                                 |");
    v.push("| i/o        | Up/Down                    | Zoom in/out                                         |");
    v.push("| r/R        |                            | Rotate image clockwise/counterclockwise             |");
    v.push("| H, J, K, L | Shift + Up/Down/Left/Right | Pan left/down/up/right                              |");
    v.push("| h          |                            | Flip image horizontally                             |");
    v.push("| v          |                            | Flip image vertically                               |");
    v.push("| b/w        | PageDown/PageUp            | Backward/Forward 10% of images                      |");
    v.push("| g/G        | Home/End                   | First/Last Image (55G jumps to the 55th image)      |");
    v.push("| m          |                            | Move image to destination folder (default ./keep)   |");
    v.push("| c          |                            | Copy image to destination folder (default ./keep)   |");
    v.push("| d          | Delete                     | Move image to OS specific trash location            |");
    v.push("| D          | Shift + Delete             | Delete image from its location                      |");
    v.push("| t          |                            | Toggle information bar                              |");
    v.push("| f          | F11                        | Toggle fullscreen mode                              |");
    v.push("| ?          |                            | Toggle help box                                     |");
    v.push("| z          | Left Click                 | Toggle actual size vs scaled image                  |");
    v.push("| Z          |                            | Center image                                        |");
    v.push("| . (period) |                            | Repeat last action                                  |");
    v.push("+------------+----------------------------+-----------------------------------------------------+");
    proof {
        assert(views_of(v@) =~= normal_help_lines());
    }
    v
}

/// The command reference shown by the command-mode help overlay, one table
/// row per line.
pub fn command_help_text() -> (v: Vec<&'static str>)
    ensures
        views_of(v@) == command_help_lines(),
        v@.len() == 18,
{
    let mut v: Vec<&'static str> = Vec::new();
    v.push("+-------+------------+----------+-------------------------------------+");
    v.push("| Short | Long       | Argument | Action                              |");
    v.push("+-------+------------+----------+-------------------------------------+");
    v.push("| ng    | newglob    | Required | The new glob/directory/file         |");
    v.push("| ?     | help       | None     | Toggle help box                     |");
    v.push("| q     | quit       | None     | Quit                                |");
    v.push("|       | sort       | Optional | The method to sort by               |");
    v.push("| df    | destfolder | Required | New folder to move/copy images to   |");
    v.push("| m     | max        | Required | New maximum number of files to view |");
    v.push("+---------------------------------------------------------------------+");
    v.push("| Sorting Options                                                     |");
    v.push("+---------------------------------------------------------------------+");
    v.push("| Alphabetical                                                        |");
    v.push("| Date                                                                |");
    v.push("| Size                                                                |");
    v.push("| DepthFirst                                                          |");
    v.push("| BreadthFirst                                                        |");
    v.push("+---------------------------------------------------------------------+");
    proof {
        assert(views_of(v@) =~= command_help_lines());
    }
    v
}

} // verus!
