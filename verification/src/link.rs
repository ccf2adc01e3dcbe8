use vstd::prelude::*;
use vstd::string::StringExecFns;

verus! {

/// The characters of the fixed site prefix that every article URL starts
/// with.
pub open spec fn spec_base_url() -> Seq<char> {
    "https://m.qqaiqin.com/article/"@
}

/// A reference to one article page: the fixed site prefix together with the
/// path segment (such as `87537.html`) that identifies the page.
#[derive(Debug)]
pub struct Link {
    pub base: String,
    pub html_name: String,
}

impl Link {
    /// Builds a page reference for the given path segment. The base is
    /// always the fixed site prefix; the segment is taken as given, with no
    /// validation.
    pub fn new(html_name: String) -> (r: Link)
        ensures
            r.base@ == spec_base_url(),
            r.html_name@ == html_name@,
    {
        Link { base: String::from_str("https://m.qqaiqin.com/article/"), html_name }
    }

    /// The full request URL: the base followed by the path segment.
    pub fn url(&self) -> (r: String)
        ensures
            r@ == self.base@ + self.html_name@,
    {
        let mut r = self.base.clone();
        r.append(self.html_name.as_str());
        r
    }
}

} // verus!
