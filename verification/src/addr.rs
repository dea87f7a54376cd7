//! Network addresses as a tagged union: a four-component numeric form and
//! a textual form.

use vstd::prelude::*;

verus! {

/// A network address is exactly one of two variants: four 8-bit components,
/// or a text string.
pub enum IpAddr {
    V4(u8, u8, u8, u8),
    V6(String),
}

impl IpAddr {
    /// Exactly one variant is active in every address.
    pub proof fn lemma_one_active_variant(&self)
        ensures
            (*self is V4) != (*self is V6),
    {
    }

    /// Constructs the four-component variant; every component is kept as given.
    pub fn v4(a: u8, b: u8, c: u8, d: u8) -> (r: IpAddr)
        ensures
            r == IpAddr::V4(a, b, c, d),
    {
        IpAddr::V4(a, b, c, d)
    }

    /// Constructs the textual variant; the string is kept as given.
    pub fn v6(s: String) -> (r: IpAddr)
        ensures
            r == IpAddr::V6(s),
    {
        IpAddr::V6(s)
    }
}

} // verus!
