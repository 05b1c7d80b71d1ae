//! An image file as the canvas holds it.

use vstd::prelude::*;
use crate::codec::size_from_probe;
use crate::codec::size_of_probe;

verus! {

/// An image file: its name, its type, its bytes and its natural size in pixels.
#[derive(Debug, PartialEq, Eq)]
pub struct FileDetails {
    pub name: String,
    /// The media type, such as `image/png`.
    pub file_type: String,
    pub data: Vec<u8>,
    pub width: i32,
    pub height: i32,
}

/// A `FileDetails` as plain values.
pub ghost struct FileDetailsView {
    pub name: Seq<char>,
    pub file_type: Seq<char>,
    pub data: Seq<u8>,
    pub width: i32,
    pub height: i32,
}

impl View for FileDetails {
    type V = FileDetailsView;

    open spec fn view(&self) -> FileDetailsView {
        FileDetailsView {
            name: self.name@,
            file_type: self.file_type@,
            data: self.data@,
            width: self.width,
            height: self.height,
        }
    }
}

impl Clone for FileDetails {
    fn clone(&self) -> (r: Self)
        ensures
            r@ == self@,
    {
        let data = self.data.clone();
        assert(data@ =~= self.data@);
        FileDetails {
            name: self.name.clone(),
            file_type: self.file_type.clone(),
            data,
            width: self.width,
            height: self.height,
        }
    }
}

impl FileDetails {
    /// The file of an image of which a probe of its data found the given
    /// size, or none: then it is taken to be 100 by 100.
    pub fn probed(name: String, file_type: String, data: Vec<u8>, probe: Option<(usize, usize)>) -> (file: FileDetails)
        ensures
            file@ == (FileDetailsView {
                name: name@,
                file_type: file_type@,
                data: data@,
                width: size_of_probe(probe).0,
                height: size_of_probe(probe).1,
            }),
    {
        let (size, _) = size_from_probe(probe);
        FileDetails { name, file_type, data, width: size.0, height: size.1 }
    }
}

} // verus!
