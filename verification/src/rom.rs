use vstd::prelude::*;

verus! {

/// Program ROM: a block of bytes that can only be read.
#[derive(Debug)]
pub struct Rom {
    data: Vec<u8>,
}

impl View for Rom {
    type V = Seq<u8>;

    closed spec fn view(&self) -> Seq<u8> {
        self.data@
    }
}

impl Rom {
    pub fn new(data: Vec<u8>) -> (rom: Rom)
        ensures
            rom@ == data@,
    {
        Rom { data }
    }

    pub fn read(&self, pos: u16) -> (value: u8)
        requires
            pos < self@.len(),
        ensures
            value == self@[pos as int],
    {
        self.data[pos as usize]
    }

    pub fn size(&self) -> (size: usize)
        ensures
            size == self@.len(),
    {
        self.data.len()
    }
}

} // verus!
