//! Content extraction from a share-target activation. The host reads the
//! activation and copies the files; the decisions are made here.
use vstd::prelude::*;
use vstd::string::StringExecFns;
use crate::error::{Result, ShareError};
use crate::models::{
    copy_opt, files_view, opt_view, SharedContent, SharedContentType, SharedContentView,
    SharedFile, SharedFileView,
};

verus! {

/// The character of a decimal digit.
pub open spec fn digit_char(d: nat) -> char {
    if d == 0 { '0' }
    else if d == 1 { '1' }
    else if d == 2 { '2' }
    else if d == 3 { '3' }
    else if d == 4 { '4' }
    else if d == 5 { '5' }
    else if d == 6 { '6' }
    else if d == 7 { '7' }
    else if d == 8 { '8' }
    else { '9' }
}

/// The decimal digits of `n`, without leading zeros.
pub open spec fn decimal(n: nat) -> Seq<char>
    decreases n,
{
    if n < 10 {
        seq![digit_char(n)]
    } else {
        decimal(n / 10).push(digit_char(n % 10))
    }
}

fn digit_str(d: u64) -> (r: &'static str)
    requires
        d < 10,
    ensures
        r@ == seq![digit_char(d as nat)],
{
    proof {
        reveal_strlit("0");
        reveal_strlit("1");
        reveal_strlit("2");
        reveal_strlit("3");
        reveal_strlit("4");
        reveal_strlit("5");
        reveal_strlit("6");
        reveal_strlit("7");
        reveal_strlit("8");
        reveal_strlit("9");
    }
    if d == 0 { "0" }
    else if d == 1 { "1" }
    else if d == 2 { "2" }
    else if d == 3 { "3" }
    else if d == 4 { "4" }
    else if d == 5 { "5" }
    else if d == 6 { "6" }
    else if d == 7 { "7" }
    else if d == 8 { "8" }
    else { "9" }
}

/// Appends the decimal digits of `n`.
fn append_decimal(s: &mut String, n: u64)
    ensures
        final(s)@ == old(s)@ + decimal(n as nat),
    decreases n,
{
    if n >= 10 {
        append_decimal(s, n / 10);
    }
    s.append(digit_str(n % 10));
    assert(n < 10 ==> decimal(n as nat) == seq![digit_char(n as nat)]);
}

/// The name a received file is cached under: the time of receipt in
/// milliseconds, an underscore, and the file's own name.
pub open spec fn cached_name(timestamp_ms: u64, name: Seq<char>) -> Seq<char> {
    decimal(timestamp_ms as nat) + seq!['_'] + name
}

/// The name a received file is cached under.
pub fn cached_file_name(timestamp_ms: u64, name: &str) -> (r: String)
    ensures
        r@ == cached_name(timestamp_ms, name@),
{
    let mut s = String::new();
    append_decimal(&mut s, timestamp_ms);
    proof {
        reveal_strlit("_");
    }
    s.append("_");
    s.append(name);
    assert(s@ =~= cached_name(timestamp_ms, name@));
    s
}

/// A file that an activation offers.
#[derive(Debug)]
pub struct IncomingFile {
    pub name: String,
    pub mime_type: Option<String>,
}

/// A file to copy into the cache, under `cached_name`.
#[derive(Debug)]
pub struct CopyTask {
    pub name: String,
    pub cached_name: String,
    pub mime_type: Option<String>,
}

/// What the host does with an activation.
#[derive(Debug)]
pub enum ExtractionPlan {
    /// The content is known: no copy is needed.
    Ready(SharedContent),
    /// Copy these files, then finish with [`finish_extraction`].
    CopyFiles(Vec<CopyTask>),
    /// The activation holds nothing to share.
    Fail(ShareError),
}

/// The copy task for an offered file.
pub open spec fn task_for(f: IncomingFile, timestamp_ms: u64, t: CopyTask) -> bool {
    &&& t.name@ == f.name@
    &&& t.cached_name@ == cached_name(timestamp_ms, f.name@)
    &&& opt_view(t.mime_type) == opt_view(f.mime_type)
}

/// Decides what to do with an activation that offers `text` and `files`: a text
/// wins; else the files are copied; else there is nothing to share.
pub fn plan_extraction(
    text: Option<String>,
    files: Option<Vec<IncomingFile>>,
    timestamp_ms: u64,
) -> (r: ExtractionPlan)
    ensures
        text is Some ==> r is Ready && r->Ready_0@ == (SharedContentView {
            content_type: SharedContentType::Text,
            text: Some(text->0@),
            files: None,
        }),
        text is None && files is Some && files->0@.len() > 0 ==> r is CopyFiles && r->CopyFiles_0@.len()
            == files->0@.len() && forall|i: int|
            0 <= i < files->0@.len() ==> task_for(
                #[trigger] files->0@[i],
                timestamp_ms,
                r->CopyFiles_0@[i],
            ),
        text is None && (files is None || files->0@.len() == 0) ==> r == ExtractionPlan::Fail(
            ShareError::NoShareableContent,
        ),
{
    if let Some(t) = text {
        return ExtractionPlan::Ready(SharedContent::from_text(t));
    }
    match files {
        None => ExtractionPlan::Fail(ShareError::NoShareableContent),
        Some(fs) => {
            if fs.len() == 0 {
                return ExtractionPlan::Fail(ShareError::NoShareableContent);
            }
            let mut tasks: Vec<CopyTask> = Vec::new();
            let mut i: usize = 0;
            while i < fs.len()
                invariant
                    i <= fs@.len(),
                    tasks@.len() == i,
                    forall|j: int| 0 <= j < i ==> task_for(#[trigger] fs@[j], timestamp_ms, tasks@[j]),
                decreases fs@.len() - i,
            {
                let f = &fs[i];
                tasks.push(
                    CopyTask {
                        name: f.name.clone(),
                        cached_name: cached_file_name(timestamp_ms, f.name.as_str()),
                        mime_type: copy_opt(&f.mime_type),
                    },
                );
                i = i + 1;
            }
            ExtractionPlan::CopyFiles(tasks)
        },
    }
}

/// A file that the host copied into the cache.
#[derive(Debug)]
pub struct CopiedFile {
    pub path: String,
    pub size: Option<u64>,
}

/// One copy task and what became of it: the copy, or `None` where it failed.
#[derive(Debug)]
pub struct CopyOutcome {
    pub name: String,
    pub mime_type: Option<String>,
    pub copied: Option<CopiedFile>,
}

/// The received files that the outcomes give, in order: one for each copy that succeeded.
pub open spec fn kept_files(s: Seq<CopyOutcome>) -> Seq<SharedFileView>
    decreases s.len(),
{
    if s.len() == 0 {
        Seq::empty()
    } else {
        let rest = kept_files(s.drop_last());
        let o = s.last();
        match o.copied {
            Some(c) => rest.push(
                SharedFileView {
                    path: c.path@,
                    name: o.name@,
                    mime_type: opt_view(o.mime_type),
                    size: c.size,
                },
            ),
            None => rest,
        }
    }
}

/// What an extraction yields once the copies are done: the files that were
/// copied, or `NoShareableContent` where none was.
pub open spec fn extraction_result(s: Seq<CopyOutcome>) -> core::result::Result<
    SharedContentView,
    ShareError,
> {
    if kept_files(s).len() == 0 {
        Err(ShareError::NoShareableContent)
    } else {
        Ok(
            SharedContentView {
                content_type: SharedContentType::Files,
                text: None,
                files: Some(kept_files(s)),
            },
        )
    }
}

/// Finishes an extraction from what became of each copy.
pub fn finish_extraction(outcomes: Vec<CopyOutcome>) -> (r: Result<SharedContent>)
    ensures
        match r {
            Ok(c) => extraction_result(outcomes@) == Ok::<SharedContentView, ShareError>(c@),
            Err(e) => extraction_result(outcomes@) == Err::<SharedContentView, ShareError>(e),
        },
{
    let mut files: Vec<SharedFile> = Vec::new();
    let mut i: usize = 0;
    while i < outcomes.len()
        invariant
            i <= outcomes@.len(),
            files_view(files@) == kept_files(outcomes@.subrange(0, i as int)),
        decreases outcomes@.len() - i,
    {
        let o = &outcomes[i];
        let ghost before = files@;
        match &o.copied {
            Some(c) => {
                files.push(
                    SharedFile {
                        path: c.path.clone(),
                        name: o.name.clone(),
                        mime_type: copy_opt(&o.mime_type),
                        size: c.size,
                    },
                );
                assert(files_view(files@) =~= files_view(before).push(files@.last()@));
            },
            None => {},
        }
        assert(outcomes@.subrange(0, i + 1).drop_last() =~= outcomes@.subrange(0, i as int));
        i = i + 1;
    }
    assert(outcomes@.subrange(0, outcomes@.len() as int) =~= outcomes@);
    if files.len() == 0 {
        Err(ShareError::NoShareableContent)
    } else {
        Ok(SharedContent::from_files(files))
    }
}

} // verus!
