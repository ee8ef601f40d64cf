//! The program image being analysed.
use vstd::prelude::*;

verus! {

/// Sole, immutable owner of a program image's bytes. An empty image is valid.
#[derive(Debug)]
pub struct Cartridge {
    bytes: Vec<u8>,
}

impl View for Cartridge {
    type V = Seq<u8>;

    closed spec fn view(&self) -> Seq<u8> {
        self.bytes@
    }
}

impl Cartridge {
    /// The cartridge that holds `bytes`.
    pub fn new(bytes: Vec<u8>) -> (r: Cartridge)
        ensures
            r@ == bytes@,
    {
        Cartridge { bytes }
    }

    pub fn get_bytes(&self) -> (r: &Vec<u8>)
        ensures
            r@ == self@,
    {
        &self.bytes
    }
}

} // verus!
