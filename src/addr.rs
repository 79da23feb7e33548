use vstd::prelude::*;

verus! {

/// An IPv4 address, held as its four octets in the order they are written.
#[derive(Clone, Copy, Debug, PartialEq, Eq, Structural)]
pub struct Ipv4 {
    pub a: u8,
    pub b: u8,
    pub c: u8,
    pub d: u8,
}

/// The unspecified address `0.0.0.0`, which stands for "nothing known yet".
pub open spec fn unspecified_spec() -> Ipv4 {
    Ipv4 { a: 0, b: 0, c: 0, d: 0 }
}

impl Ipv4 {
    pub fn new(a: u8, b: u8, c: u8, d: u8) -> (r: Ipv4)
        ensures
            r == (Ipv4 { a, b, c, d }),
    {
        Ipv4 { a, b, c, d }
    }

    pub fn unspecified() -> (r: Ipv4)
        ensures
            r == unspecified_spec(),
    {
        Ipv4 { a: 0, b: 0, c: 0, d: 0 }
    }

    pub fn is_unspecified(&self) -> (r: bool)
        ensures
            r == (*self == unspecified_spec()),
    {
        *self == Ipv4::unspecified()
    }

    pub fn octets(&self) -> (r: [u8; 4])
        ensures
            r@ == seq![self.a, self.b, self.c, self.d],
    {
        [self.a, self.b, self.c, self.d]
    }
}

} // verus!
