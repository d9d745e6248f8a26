//! A one-message library: it builds the fixed greeting that the exported
//! entry point hands to the host environment's console.
//!
//! The console write itself is host I/O and lives outside this library;
//! here only the message is produced, and its content is pinned exactly.

use vstd::prelude::*;

verus! {

/// The fixed greeting, as a sequence of characters.
pub open spec fn spec_message() -> Seq<char> {
    "Hello, WASM!"@
}

/// Builds the fixed greeting that the entry point logs to the host console.
pub fn message() -> (s: String)
    ensures
        s@ == spec_message(),
{
    String::from_str("Hello, WASM!")
}

} // verus!
