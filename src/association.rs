use vstd::prelude::*;

verus! {

/// The registry key, under the current user, that holds file classes.
pub const CLASSES_KEY: &'static str = "Software\\Classes";

/// The class that `.png` files are given.
pub const PROG_ID: &'static str = "Luminix.Image";

/// The extension that is associated.
pub const EXTENSION: &'static str = ".png";

/// The key, under the class, whose default value is the command that opens a file.
pub const OPEN_COMMAND_KEY: &'static str = "Luminix.Image\\shell\\open\\command";

/// One value to write under the classes key: the subkey to create or open, the
/// value's name (empty for the default value) and its text.
pub struct RegistryWrite {
    pub subkey: String,
    pub name: String,
    pub value: String,
}

/// The command line that opens a file with the program at `exe_path`: the path
/// in quotes, then the quoted placeholder for the file.
pub open spec fn open_command(exe_path: Seq<char>) -> Seq<char> {
    "\""@ + exe_path + "\" \"%1\""@
}

/// What registering the viewer for `.png` files writes under the classes key, in
/// order: the extension's default value names the class, and the class's open
/// command runs the program at `exe_path` on the file.
pub fn register_file_association(exe_path: &str) -> (r: Vec<RegistryWrite>)
    ensures
        r@.len() == 2,
        r@[0].subkey@ == EXTENSION@,
        r@[0].name@.len() == 0,
        r@[0].value@ == PROG_ID@,
        r@[1].subkey@ == OPEN_COMMAND_KEY@,
        r@[1].name@.len() == 0,
        r@[1].value@ == open_command(exe_path@),
{
    let mut command = String::from_str("\"");
    command.append(exe_path);
    command.append("\" \"%1\"");
    let mut writes: Vec<RegistryWrite> = Vec::new();
    writes.push(
        RegistryWrite {
            subkey: String::from_str(EXTENSION),
            name: String::new(),
            value: String::from_str(PROG_ID),
        },
    );
    writes.push(
        RegistryWrite {
            subkey: String::from_str(OPEN_COMMAND_KEY),
            name: String::new(),
            value: command,
        },
    );
    writes
}

} // verus!
