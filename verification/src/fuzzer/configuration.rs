use vstd::prelude::*;

verus! {

/// The file-system path type of std, carried through as an opaque value.
#[verifier::external_type_specification]
#[verifier::external_body]
pub struct ExPathBuf(std::path::PathBuf);

/// Configuration received from the user specifying endpoint, schema, auth, etc.
pub struct Configuration {
    pub schema: std::path::PathBuf,
    pub tests: Vec<Test>,
}

/// One endpoint to test.
pub struct Test {
    pub endpoint: String,
}

} // verus!
