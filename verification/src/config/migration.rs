//! Status of the move to the single stored configuration file.
use vstd::prelude::*;

verus! {

/// The status text for a store that `needs_migration` (no stored file yet)
/// and whose stored file `exists`.
pub open spec fn migration_status_text(needs_migration: bool, exists: bool) -> Seq<char> {
    if needs_migration {
        "Migration needed: Postcard config not yet created"@
    } else if exists {
        "Postcard config is up to date"@
    } else {
        "No configuration found. Run 'init' to create default config."@
    }
}

/// The status text, from what was found on disk.
pub fn migration_status_from(needs_migration: bool, exists: bool) -> (r: String)
    ensures
        r@ == migration_status_text(needs_migration, exists),
{
    if needs_migration {
        "Migration needed: Postcard config not yet created".to_owned()
    } else if exists {
        "Postcard config is up to date".to_owned()
    } else {
        "No configuration found. Run 'init' to create default config.".to_owned()
    }
}

} // verus!
