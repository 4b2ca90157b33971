//! Mapping a workspace name to the name of its storage file.

use vstd::prelude::*;
use vstd::string::StringExecFns;

verus! {

/// The storage file for a workspace is `db.<name>.json`.
pub fn get_db_filename_from_workspace_name(workspace_name: String) -> (r: String)
    ensures
        r@ == "db."@ + workspace_name@ + ".json"@,
{
    let mut db_filename = String::from_str("db.");
    db_filename.append(workspace_name.as_str());
    db_filename.append(".json");
    db_filename
}

} // verus!
