//! Raw binary firmware images: the file's bytes are the image.
use vstd::prelude::*;

verus! {

/// A raw binary firmware file, as made by `objcopy -O binary`.
pub struct RawFirmwareFile {
    contents: Vec<u8>,
}

impl View for RawFirmwareFile {
    type V = Seq<u8>;

    closed spec fn view(&self) -> Seq<u8> {
        self.contents@
    }
}

impl RawFirmwareFile {
    /// Holds the file's bytes as the image.
    pub fn from_contents(contents: Vec<u8>) -> (r: Self)
        ensures
            r@ == contents@,
    {
        RawFirmwareFile { contents }
    }

    /// A raw image says nothing of where it loads.
    pub fn load_address(&self) -> (r: Option<u32>)
        ensures
            r is None,
    {
        None
    }

    /// The image: the file's bytes.
    pub fn firmware_data(&self) -> (r: &[u8])
        ensures
            r@ == self@,
    {
        self.contents.as_slice()
    }
}

} // verus!
