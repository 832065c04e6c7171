//! How the frame is to be shown: the window's title and size.

use vstd::prelude::*;

verus! {

/// The title and the size, in screen pixels, of the window that shows the
/// frame.
pub struct GraphicsConfig {
    /// The window's title.
    pub name: String,
    /// The window's width and height.
    pub dim: (u32, u32),
}

impl GraphicsConfig {
    /// A configuration with the given title and size.
    pub fn new(name: &str, dim: (u32, u32)) -> (conf: GraphicsConfig)
        ensures
            conf.name@ == name@,
            conf.dim == dim,
    {
        GraphicsConfig { name: name.to_owned(), dim: dim }
    }
}

} // verus!
