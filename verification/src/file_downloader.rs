use vstd::prelude::*;

verus! {

/// A pending download, by the url it will fetch.
#[derive(Debug)]
pub struct FileDownloader {
    url: String,
}

impl FileDownloader {
    /// A downloader for a url.
    pub fn from_url(url: &str) -> (r: FileDownloader)
        ensures
            r.url_view() == url@,
    {
        FileDownloader { url: url.to_owned() }
    }

    /// The url this downloader fetches.
    pub closed spec fn url_view(&self) -> Seq<char> {
        self.url@
    }

    /// The url this downloader fetches.
    pub fn url(&self) -> (r: &str)
        ensures
            r@ == self.url_view(),
    {
        self.url.as_str()
    }
}

} // verus!
