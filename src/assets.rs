//! Where the operator screen's images are found.

use vstd::prelude::*;
use vstd::string::*;

verus! {

/// Directory of the images, relative to the home directory.
pub const IMAGE_DIR: &'static str = "/.config/ichibu/images/";

/// File name of the logo shown when an image is missing.
pub const CALDO_LOGO: &'static str = "caldo-icon-blue.svg";

/// Why an image cannot be served.
#[derive(Clone, Copy, Debug, PartialEq, Eq, Structural)]
pub enum ImageError {
    /// No file name was given.
    EmptyName,
    /// The file could not be read.
    Unreadable,
}

/// Path of the image file `filename` under the home directory `root_dir`.
pub open spec fn image_path(root_dir: Seq<char>, filename: Seq<char>) -> Seq<char> {
    root_dir + IMAGE_DIR@ + filename
}

/// The file that holds the image `filename`: an empty name names no file.
pub fn read_image(root_dir: &str, filename: &str) -> (r: Result<String, ImageError>)
    ensures
        filename@.len() == 0 ==> r == Err::<String, ImageError>(ImageError::EmptyName),
        filename@.len() > 0 ==> (r matches Ok(p) && p@ == image_path(root_dir@, filename@)),
{
    if filename.unicode_len() == 0 {
        return Err(ImageError::EmptyName);
    }
    let mut path = String::from_str(root_dir);
    path.append(IMAGE_DIR);
    path.append(filename);
    Ok(path)
}

/// The file that holds the logo.
pub fn read_caldo_logo(root_dir: &str) -> (r: Result<String, ImageError>)
    ensures
        r matches Ok(p) && p@ == image_path(root_dir@, CALDO_LOGO@),
{
    proof {
        reveal_strlit("caldo-icon-blue.svg");
    }
    read_image(root_dir, CALDO_LOGO)
}

} // verus!
