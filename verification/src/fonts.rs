//! Font styles and the caller-built mapping from a style to the opaque
//! handle of a loaded font resource. The layout core never loads fonts;
//! it only resolves a style tag to the handle the caller registered.

use vstd::prelude::*;

verus! {

/// The style tag carried by a span, used only as a lookup key.
#[derive(Clone, Copy, Debug, PartialEq, Eq, Hash, Structural)]
pub enum FontStyle {
    Regular,
    Bold,
}

/// A caller-built mapping from font style to the opaque handle of a
/// loaded font resource. Build once, read many times during layout.
#[derive(Clone, Copy, Debug, PartialEq, Eq, Structural)]
pub struct FontMap {
    regular: Option<u64>,
    bold: Option<u64>,
}

impl FontMap {
    /// The handle registered for a style, if any.
    pub closed spec fn spec_get(&self, style: FontStyle) -> Option<u64> {
        match style {
            FontStyle::Regular => self.regular,
            FontStyle::Bold => self.bold,
        }
    }

    /// A mapping with no style registered.
    pub fn new() -> (m: FontMap)
        ensures
            forall|s: FontStyle| m.spec_get(s) is None,
    {
        FontMap { regular: None, bold: None }
    }

    /// Register `handle` for `style`, replacing any earlier handle.
    pub fn set(&mut self, style: FontStyle, handle: u64)
        ensures
            final(self).spec_get(style) == Some(handle),
            forall|s: FontStyle| s != style ==> final(self).spec_get(s) == old(self).spec_get(s),
    {
        match style {
            FontStyle::Regular => {
                self.regular = Some(handle);
            },
            FontStyle::Bold => {
                self.bold = Some(handle);
            },
        }
    }

    /// Look up the handle registered for `style`.
    pub fn get(&self, style: FontStyle) -> (r: Option<u64>)
        ensures
            r == self.spec_get(style),
    {
        match style {
            FontStyle::Regular => self.regular,
            FontStyle::Bold => self.bold,
        }
    }
}

} // verus!
