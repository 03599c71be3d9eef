//! The values that a share request carries out and a received share brings in.
use vstd::prelude::*;

verus! {

/// The view of an optional string.
pub open spec fn opt_view(o: Option<String>) -> Option<Seq<char>> {
    match o {
        Some(s) => Some(s@),
        None => None,
    }
}

/// A copy of an optional string.
pub fn copy_opt(o: &Option<String>) -> (r: Option<String>)
    ensures
        opt_view(r) == opt_view(*o),
{
    match o {
        Some(s) => Some(s.clone()),
        None => None,
    }
}

/// Parameters of an outbound text share. Absent fields take the platform's defaults.
#[derive(Debug)]
pub struct ShareTextOptions {
    pub mime_type: Option<String>,
}

impl Default for ShareTextOptions {
    fn default() -> (r: Self)
        ensures
            r.mime_type is None,
    {
        ShareTextOptions { mime_type: None }
    }
}

/// An outbound text share as handed to a mobile share sheet.
#[derive(Debug)]
pub struct ShareTextPayload {
    pub text: String,
    pub options: ShareTextOptions,
}

/// Parameters of an outbound file share. Absent fields take the platform's defaults.
#[derive(Debug)]
pub struct ShareFileOptions {
    pub mime_type: Option<String>,
    pub title: Option<String>,
}

impl Default for ShareFileOptions {
    fn default() -> (r: Self)
        ensures
            r.mime_type is None,
            r.title is None,
    {
        ShareFileOptions { mime_type: None, title: None }
    }
}

/// An outbound file share as handed to a mobile share sheet.
#[derive(Debug)]
pub struct ShareFilePayload {
    pub url: String,
    pub options: ShareFileOptions,
}

/// Which of the two kinds of content a received share holds.
#[derive(Clone, Copy, Debug, PartialEq, Eq, Structural)]
pub enum SharedContentType {
    Text,
    Files,
}

/// A received file, already copied into the application's private cache.
#[derive(Debug)]
pub struct SharedFile {
    /// Where the cached copy lies.
    pub path: String,
    /// The file's original name.
    pub name: String,
    pub mime_type: Option<String>,
    /// Size in bytes.
    pub size: Option<u64>,
}

/// The mathematical value of a [`SharedFile`].
pub struct SharedFileView {
    pub path: Seq<char>,
    pub name: Seq<char>,
    pub mime_type: Option<Seq<char>>,
    pub size: Option<u64>,
}

impl View for SharedFile {
    type V = SharedFileView;

    open spec fn view(&self) -> SharedFileView {
        SharedFileView {
            path: self.path@,
            name: self.name@,
            mime_type: opt_view(self.mime_type),
            size: self.size,
        }
    }
}

impl Clone for SharedFile {
    fn clone(&self) -> (r: Self)
        ensures
            r@ == self@,
    {
        SharedFile {
            path: self.path.clone(),
            name: self.name.clone(),
            mime_type: copy_opt(&self.mime_type),
            size: self.size,
        }
    }
}

/// The views of a list of files.
pub open spec fn files_view(files: Seq<SharedFile>) -> Seq<SharedFileView> {
    files.map_values(|f: SharedFile| f@)
}

/// A copy of a list of files, in the same order.
pub fn copy_files(files: &Vec<SharedFile>) -> (r: Vec<SharedFile>)
    ensures
        files_view(r@) == files_view(files@),
{
    let mut r: Vec<SharedFile> = Vec::new();
    let mut i: usize = 0;
    while i < files.len()
        invariant
            i <= files@.len(),
            r@.len() == i,
            forall|j: int| 0 <= j < i ==> (#[trigger] r@[j])@ == files@[j]@,
        decreases files@.len() - i,
    {
        r.push(files[i].clone());
        i = i + 1;
    }
    assert(files_view(r@) =~= files_view(files@));
    r
}

/// One completed inbound share: a text, or a list of files.
#[derive(Debug)]
pub struct SharedContent {
    pub content_type: SharedContentType,
    pub text: Option<String>,
    pub files: Option<Vec<SharedFile>>,
}

/// The mathematical value of a [`SharedContent`].
pub struct SharedContentView {
    pub content_type: SharedContentType,
    pub text: Option<Seq<char>>,
    pub files: Option<Seq<SharedFileView>>,
}

impl View for SharedContent {
    type V = SharedContentView;

    open spec fn view(&self) -> SharedContentView {
        SharedContentView {
            content_type: self.content_type,
            text: opt_view(self.text),
            files: match self.files {
                Some(f) => Some(files_view(f@)),
                None => None,
            },
        }
    }
}

impl SharedContent {
    /// A share that holds a text.
    pub fn from_text(text: String) -> (r: Self)
        ensures
            r@ == (SharedContentView {
                content_type: SharedContentType::Text,
                text: Some(text@),
                files: None,
            }),
    {
        SharedContent { content_type: SharedContentType::Text, text: Some(text), files: None }
    }

    /// A share that holds a list of files.
    pub fn from_files(files: Vec<SharedFile>) -> (r: Self)
        ensures
            r@ == (SharedContentView {
                content_type: SharedContentType::Files,
                text: None,
                files: Some(files_view(files@)),
            }),
    {
        SharedContent { content_type: SharedContentType::Files, text: None, files: Some(files) }
    }
}

impl Clone for SharedContent {
    fn clone(&self) -> (r: Self)
        ensures
            r@ == self@,
    {
        let files = match &self.files {
            Some(f) => Some(copy_files(f)),
            None => None,
        };
        SharedContent { content_type: self.content_type, text: copy_opt(&self.text), files }
    }
}

} // verus!
