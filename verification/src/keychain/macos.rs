//! The secret-store interface where the native keychain exists. The
//! host shell talks to the keychain itself; calling these directly is
//! refused.

use vstd::prelude::*;

verus! {

/// Always refuses: storage goes through the host shell.
pub fn store_connection_string(connection_id: &str, connection_string: &str, connection_name:
    &str) -> (r: Result<(), String>)
    ensures
        r matches Err(m) && m@
            == "This function should not be called directly. Use Tauri commands instead."@,
{
    Err(
        String::from_str(
            "This function should not be called directly. Use Tauri commands instead.",
        ),
    )
}

/// Always refuses: retrieval goes through the host shell.
pub fn get_connection_string(connection_id: &str) -> (r: Result<String, String>)
    ensures
        r matches Err(m) && m@
            == "This function should not be called directly. Use Tauri commands instead."@,
{
    Err(
        String::from_str(
            "This function should not be called directly. Use Tauri commands instead.",
        ),
    )
}

/// Always refuses: deletion goes through the host shell.
pub fn delete_connection_string(connection_id: &str) -> (r: Result<(), String>)
    ensures
        r matches Err(m) && m@
            == "This function should not be called directly. Use Tauri commands instead."@,
{
    Err(
        String::from_str(
            "This function should not be called directly. Use Tauri commands instead.",
        ),
    )
}

/// The store cannot enumerate its entries, so the listing is empty; the
/// caller keeps its own index of connection ids.
pub fn list_connection_ids() -> (r: Result<Vec<String>, String>)
    ensures
        r matches Ok(v) && v@.len() == 0,
{
    Ok(Vec::new())
}

} // verus!
