use vstd::prelude::*;

verus! {

/// Work RAM: a block of bytes that can be read and written by position.
pub struct Ram {
    data: Vec<u8>,
}

impl View for Ram {
    type V = Seq<u8>;

    closed spec fn view(&self) -> Seq<u8> {
        self.data@
    }
}

impl Ram {
    pub fn new(data: Vec<u8>) -> (ram: Ram)
        ensures
            ram@ == data@,
    {
        Ram { data }
    }

    pub fn read(&self, pos: u16) -> (value: u8)
        requires
            pos < self@.len(),
        ensures
            value == self@[pos as int],
    {
        self.data[pos as usize]
    }

    pub fn write(&mut self, pos: u16, value: u8)
        requires
            pos < old(self)@.len(),
        ensures
            final(self)@ == old(self)@.update(pos as int, value),
    {
        self.data[pos as usize] = value;
    }

    pub fn size(&self) -> (size: usize)
        ensures
            size == self@.len(),
    {
        self.data.len()
    }
}

} // verus!
