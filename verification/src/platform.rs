use vstd::prelude::*;

verus! {

/// The host platforms the bridge distinguishes. Path conventions, process
/// creation and the local-socket primitive differ between them.
#[derive(Clone, Copy, PartialEq, Eq, Structural, Debug)]
pub enum Platform {
    Windows,
    MacOs,
    Linux,
}

} // verus!
