use vstd::prelude::*;

verus! {

/// rusqlite's database connection, carried through verified code as an opaque handle.
#[verifier::external_type_specification]
#[verifier::external_body]
pub struct ExConnection(rusqlite::Connection);

/// rusqlite's prepared statement, carried through verified code as an opaque handle.
#[verifier::external_type_specification]
#[verifier::external_body]
pub struct ExStatement<'conn>(rusqlite::Statement<'conn>);

} // verus!
