use vstd::prelude::*;
use vstd::string::StringExecFns;

verus! {

/// The parameters of one render.
pub struct Settings {
    pub image_width: u32,
    pub image_height: u32,
    pub samples_per_pixel: u32,
    pub max_depth: u32,
    /// The image format, as the extension of the output file (`png`, `jpg`, ...).
    pub file_type: String,
}

/// The name of the file that a finished render is written to: `img.` followed by the extension.
pub open spec fn output_name(file_type: Seq<char>) -> Seq<char> {
    "img."@ + file_type
}

impl Settings {
    /// The name of the file that the rendered image is saved under.
    pub fn output_file_name(&self) -> (r: String)
        ensures
            r@ == output_name(self.file_type@),
    {
        let mut name = String::from_str("img.");
        name.append(self.file_type.as_str());
        name
    }
}

} // verus!
