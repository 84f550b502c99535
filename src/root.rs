use vstd::prelude::*;

verus! {

/// The root of the page, which shows the viewer at `/` and a notice on any
/// other path.
pub struct App;

impl App {
    /// The notice for a path that leads nowhere, naming the path when it is
    /// known.
    pub fn not_found_text(missed: Option<&str>) -> (r: String)
        ensures
            missed.is_none() ==> r@ == "Page not found!"@,
            missed.is_some() ==> r@ == "Page '"@ + missed.unwrap()@ + "' not found!"@,
    {
        match missed {
            None => String::from_str("Page not found!"),
            Some(path) => {
                let mut s = String::from_str("Page '");
                s.append(path);
                s.append("' not found!");
                s
            },
        }
    }
}

/// The notice shown in place of a file whose MIME type is none of audio,
/// image or video.
pub fn invalid_type_text(mime: &str) -> (r: String)
    ensures
        r@ == "Invalid media type '"@ + mime@ + "'"@,
{
    let mut s = String::from_str("Invalid media type '");
    s.append(mime);
    s.append("'");
    s
}

} // verus!
