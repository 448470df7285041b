//! The node type of the control plane's pool file.
use vstd::prelude::*;

verus! {

/// A backend node that the control plane forwards connections to.
#[derive(Debug)]
pub struct Node {
    pub id: u8,
    pub hostname: String,
    pub port: u32,
}

} // verus!
