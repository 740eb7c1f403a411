use vstd::prelude::*;

verus! {

/// Creates the greetings table when it is absent and leaves it as it is otherwise.
pub const CREATE_TABLE: &'static str = "CREATE TABLE IF NOT EXISTS greetings (id INTEGER PRIMARY KEY, name TEXT NOT NULL)";

/// Records one greeting; its only parameter is the name.
pub const INSERT_GREETING: &'static str = "INSERT INTO greetings (name) VALUES (?)";

/// Counts the recorded greetings.
pub const COUNT_GREETINGS: &'static str = "SELECT COUNT(*) FROM greetings";

/// Reads every recorded greeting.
pub const SELECT_ALL: &'static str = "SELECT id, name FROM greetings";

/// Reads the greeting with the id given as its only parameter.
pub const SELECT_BY_ID: &'static str = "SELECT id, name FROM greetings WHERE id = ?";

} // verus!
