use std::path::PathBuf;
use url::Url;
use vstd::prelude::*;
use crate::locator::{decode_path_segments, decode_segment, decoded_path, percent_decoded, views};

verus! {

#[verifier::external_type_specification]
#[verifier::external_body]
pub struct ExUrl(Url);

#[verifier::external_type_specification]
#[verifier::external_body]
pub struct ExPathBuf(PathBuf);

#[verifier::external_type_specification]
#[verifier::external_body]
pub struct ExIoError(std::io::Error);

/// Why a resource could not be read.
#[derive(Debug)]
pub enum ContentError {
    /// The URL of a loose file does not name a local file.
    UnsupportedLocator,
    /// A path segment does not decode to UTF-8; holds the decoder's message.
    InvalidEncoding(String),
    /// A bundle holds no entry for a URL whose scheme is not `file`.
    NotFound,
    /// The failure that the file opener or the bundle's content source reported.
    Io(std::io::Error),
}

/// The outcome of a read by the file opener or a bundle's content source, as the
/// library reports it.
pub open spec fn from_source(o: Result<Vec<u8>, std::io::Error>) -> Result<Vec<u8>, ContentError> {
    match o {
        Ok(b) => Ok(b),
        Err(e) => Err(ContentError::Io(e)),
    }
}

fn lift_source(o: Result<Vec<u8>, std::io::Error>) -> (r: Result<Vec<u8>, ContentError>)
    ensures
        r == from_source(o),
{
    match o {
        Ok(b) => Ok(b),
        Err(e) => Err(ContentError::Io(e)),
    }
}

/// What a reader of both outcomes cannot tell apart: equal results, or decode
/// failures with the same message.
pub open spec fn same_outcome(a: Result<Vec<u8>, ContentError>, b: Result<Vec<u8>, ContentError>) -> bool {
    a == b || (a matches Err(ContentError::InvalidEncoding(m)) && b matches Err(
        ContentError::InvalidEncoding(n),
    ) && m@ == n@)
}

/// The scheme that names local files.
pub open spec fn file_scheme() -> Seq<char> {
    seq!['f', 'i', 'l', 'e']
}

fn is_file_scheme(scheme: &String) -> (r: bool)
    ensures
        r == (scheme@ == file_scheme()),
{
    let file = String::from_str("file");
    proof {
        reveal_strlit("file");
    }
    assert("file"@ =~= file_scheme());
    *scheme == file
}

/// What `Url::scheme` returns for a URL.
pub uninterp spec fn scheme_of(u: Url) -> Seq<char>;

/// What `Url::path_segments` yields for a URL, segment by segment.
pub uninterp spec fn segments_of(u: Url) -> Option<Seq<Seq<char>>>;

/// What `Url::as_str` returns for a URL: its serialization.
pub uninterp spec fn text_of(u: Url) -> Seq<char>;

/// Relies on `Url::scheme`: a function of the URL alone.
#[verifier::external_body]
fn url_scheme(url: &Url) -> (r: String)
    ensures
        r@ == scheme_of(*url),
{
    url.scheme().to_string()
}

/// Relies on `Url::path_segments`: none for a URL that cannot be a base, else at
/// least one, each still percent-encoded.
#[verifier::external_body]
fn url_path_segments(url: &Url) -> (r: Option<Vec<String>>)
    ensures
        r is Some <==> segments_of(*url) is Some,
        r is Some ==> views(r->Some_0@) == segments_of(*url)->Some_0,
        r is Some ==> r->Some_0.len() >= 1,
{
    url.path_segments().map(|segments| segments.map(|s| s.to_string()).collect())
}

/// Relies on `Url::to_file_path`: the local path that the URL names, if any.
#[verifier::external_body]
fn url_to_file_path(url: &Url) -> (r: Option<PathBuf>) {
    url.to_file_path().ok()
}

/// The segments that a bundle entry path is made of; a URL without segments names
/// the bundle's root.
pub open spec fn segment_views(segments: Option<Vec<String>>) -> Seq<Seq<char>> {
    match segments {
        Some(v) => views(v@),
        None => Seq::empty(),
    }
}

/// What reading a loose file gives, for the URL's scheme and the local path that it
/// names, if any.
pub open spec fn direct_read<O: FnOnce(PathBuf) -> Result<Vec<u8>, std::io::Error>>(
    scheme: Seq<char>,
    file_path: Option<PathBuf>,
    open_file: O,
    r: Result<Vec<u8>, ContentError>,
) -> bool {
    if scheme != file_scheme() || file_path is None {
        r == Err::<Vec<u8>, ContentError>(ContentError::UnsupportedLocator)
    } else {
        exists|o: Result<Vec<u8>, std::io::Error>|
            call_ensures(open_file, (file_path->Some_0,), o) && r == from_source(o)
    }
}

/// What reading an entry of a bundle gives, for the URL's scheme and path segments
/// and the bundle's content source.
pub open spec fn bundle_read<S: Fn(String) -> Result<Vec<u8>, std::io::Error>>(
    scheme: Seq<char>,
    segments: Seq<Seq<char>>,
    read_content: S,
    r: Result<Vec<u8>, ContentError>,
) -> bool {
    if scheme != file_scheme() {
        r == Err::<Vec<u8>, ContentError>(ContentError::NotFound)
    } else {
        match decoded_path(segments) {
            Err(m) => r matches Err(ContentError::InvalidEncoding(msg)) && msg@ == m,
            Ok(p) => exists|q: String, o: Result<Vec<u8>, std::io::Error>|
                q@ == p && call_ensures(read_content, (q,), o) && r == from_source(o),
        }
    }
}

/// Reads a loose file: a URL whose scheme is `file` and that names a local path is
/// handed to the opener, whose outcome is returned; any other URL is refused.
pub fn read_direct_file<O: FnOnce(PathBuf) -> Result<Vec<u8>, std::io::Error>>(
    scheme: &String,
    file_path: Option<PathBuf>,
    open_file: O,
) -> (r: Result<Vec<u8>, ContentError>)
    requires
        forall|p: PathBuf| call_requires(open_file, (p,)),
    ensures
        direct_read(scheme@, file_path, open_file, r),
        scheme@ != file_scheme() ==> r matches Err(ContentError::UnsupportedLocator),
{
    if !is_file_scheme(scheme) {
        return Err(ContentError::UnsupportedLocator);
    }
    match file_path {
        None => Err(ContentError::UnsupportedLocator),
        Some(path) => {
            let o = open_file(path);
            lift_source(o)
        },
    }
}

/// Reads an entry of a bundle: a URL whose scheme is not `file` is not found; else
/// its segments are decoded into the entry's internal path, which is handed to the
/// bundle's content source, whose outcome is returned.
pub fn read_bundle_entry<S: Fn(String) -> Result<Vec<u8>, std::io::Error>>(
    scheme: &String,
    segments: Option<Vec<String>>,
    bundle: &Bundle<S>,
) -> (r: Result<Vec<u8>, ContentError>)
    requires
        forall|p: String| call_requires(bundle.source, (p,)),
    ensures
        bundle_read(scheme@, segment_views(segments), bundle.source, r),
        scheme@ != file_scheme() ==> r matches Err(ContentError::NotFound),
{
    if !is_file_scheme(scheme) {
        return Err(ContentError::NotFound);
    }
    let segs = match segments {
        Some(v) => v,
        None => Vec::new(),
    };
    assert(views(segs@) =~= segment_views(segments));
    match decode_path_segments(&segs) {
        Err(m) => Err(ContentError::InvalidEncoding(m)),
        Ok(path) => {
            let ghost q = path;
            let o = (bundle.source)(path);
            assert(call_ensures(bundle.source, (q,), o));
            lift_source(o)
        },
    }
}

/// Relies on `Url::as_str`: the URL's serialization.
#[verifier::external_body]
fn url_text(url: &Url) -> (r: String)
    ensures
        r@ == text_of(*url),
{
    url.as_str().to_string()
}

/// The text a loose file's name is read from: its URL's last path segment, or the
/// whole URL where it has no segments.
pub open spec fn name_source(text: Seq<char>, segments: Option<Seq<Seq<char>>>) -> Seq<char> {
    match segments {
        Some(s) => if s.len() > 0 {
            s.last()
        } else {
            text
        },
        None => text,
    }
}

/// A readable name for a loose file: the name source percent-decoded, or as it
/// stands where it does not decode.
pub open spec fn readable_name_of(text: Seq<char>, segments: Option<Seq<Seq<char>>>) -> Seq<char> {
    let n = name_source(text, segments);
    match percent_decoded(n) {
        Ok(d) => d,
        Err(_) => n,
    }
}

/// The readable name of a loose file, from its URL's serialization and path
/// segments.
pub fn readable_name(text: String, segments: Option<Vec<String>>) -> (r: String)
    ensures
        r@ == readable_name_of(
            text@,
            match segments {
                Some(v) => Some(views(v@)),
                None => None,
            },
        ),
{
    let source = match segments {
        Some(v) => {
            if v.len() > 0 {
                let last = v.len() - 1;
                v[last].clone()
            } else {
                text
            }
        },
        None => text,
    };
    match decode_segment(source.as_str()) {
        Ok(d) => d,
        Err(_) => source,
    }
}

/// What a bundle reports of itself.
pub struct BundleInformation {
    /// The URL that playback of the bundle starts from.
    pub url: Url,
    /// The bundle's display name.
    pub name: String,
}

/// A bundle of content: what it reports of itself, and the source that reads its
/// entries by internal path.
pub struct Bundle<S> {
    pub information: BundleInformation,
    pub source: S,
}

impl<S: Fn(String) -> Result<Vec<u8>, std::io::Error>> Bundle<S> {
    pub fn new(information: BundleInformation, source: S) -> (r: Bundle<S>)
        ensures
            r.information == information,
            r.source == source,
    {
        Bundle { information, source }
    }

    pub fn information(&self) -> (r: &BundleInformation)
        ensures
            *r == self.information,
    {
        &self.information
    }
}

/// What is playing: a loose file, or a bundle with the URL it was opened by.
pub enum PlayingContent<S> {
    DirectFile(Url),
    Bundle(Url, Bundle<S>),
}

impl<S: Fn(String) -> Result<Vec<u8>, std::io::Error>> PlayingContent<S> {
    /// The URL that playback starts from: the loose file's own, or the one that the
    /// bundle reports, not the one it was opened by.
    pub fn initial_swf_url(&self) -> (r: &Url)
        ensures
            self is DirectFile ==> *r == self->DirectFile_0,
            self is Bundle ==> *r == self->Bundle_1.information.url,
    {
        match self {
            PlayingContent::DirectFile(url) => url,
            PlayingContent::Bundle(_, bundle) => &bundle.information().url,
        }
    }

    /// The display name: read from a loose file's URL, or the one that the bundle
    /// reports.
    pub fn name(&self) -> (r: String)
        ensures
            self is DirectFile ==> r@ == readable_name_of(
                text_of(self->DirectFile_0),
                segments_of(self->DirectFile_0),
            ),
            self is Bundle ==> r == self->Bundle_1.information.name,
    {
        match self {
            PlayingContent::DirectFile(url) => readable_name(url_text(url), url_path_segments(url)),
            PlayingContent::Bundle(_, bundle) => bundle.information().name.clone(),
        }
    }

    /// Reads the resource at `url`: for a loose file through `open_file`, for a bundle
    /// through the bundle's content source with the entry's internal path.
    pub fn get_local_file<O: FnOnce(PathBuf) -> Result<Vec<u8>, std::io::Error>>(
        &self,
        url: &Url,
        open_file: O,
    ) -> (r: Result<Vec<u8>, ContentError>)
        requires
            forall|p: PathBuf| call_requires(open_file, (p,)),
            self is Bundle ==> forall|p: String| call_requires(self->Bundle_1.source, (p,)),
        ensures
            self is DirectFile ==> exists|file_path: Option<PathBuf>|
                #[trigger] direct_read(scheme_of(*url), file_path, open_file, r),
            self is Bundle ==> bundle_read(
                scheme_of(*url),
                match segments_of(*url) {
                    Some(s) => s,
                    None => Seq::empty(),
                },
                self->Bundle_1.source,
                r,
            ),
    {
        let scheme = url_scheme(url);
        match self {
            PlayingContent::DirectFile(_) => read_direct_file(&scheme, url_to_file_path(url), open_file),
            PlayingContent::Bundle(_, bundle) => {
                // No permission check here: whoever holds the bundle has already read
                // from it.
                read_bundle_entry(&scheme, url_path_segments(url), bundle)
            },
        }
    }
}

} // verus!
