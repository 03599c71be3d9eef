//! The command surface offered to the front-end: each operation of
//! [`ShareKit`], with an error reported as its message.
use vstd::prelude::*;
use crate::error::ShareError;
use crate::kit::{
    after_clear, clear_result, file_request, pending_read, text_request, ShareKit, ShareRequest,
};
use crate::models::{opt_view, SharedContent, ShareFileOptions, ShareTextOptions};
use crate::store::content_opt_view;

verus! {

/// `r` is the outcome `expected`, an error standing as its message.
pub open spec fn reports<T, V>(
    r: core::result::Result<T, String>,
    expected: core::result::Result<V, ShareError>,
    view: spec_fn(T) -> V,
) -> bool {
    match expected {
        Ok(v) => r is Ok && view(r->Ok_0) == v,
        Err(e) => r is Err && r->Err_0@ == e.message_spec(),
    }
}

/// Prepares a text share.
pub fn share_text(kit: &ShareKit, text: String, mime_type: Option<String>) -> (r:
    core::result::Result<ShareRequest, String>)
    ensures
        reports(r, text_request(kit@, text@, opt_view(mime_type)), |q: ShareRequest| q@),
{
    match kit.share_text(text, ShareTextOptions { mime_type }) {
        Ok(q) => Ok(q),
        Err(e) => Err(e.message()),
    }
}

/// Prepares a file share.
pub fn share_file(
    kit: &ShareKit,
    url: String,
    mime_type: Option<String>,
    title: Option<String>,
) -> (r: core::result::Result<ShareRequest, String>)
    ensures
        reports(
            r,
            file_request(kit@, url@, opt_view(mime_type), opt_view(title)),
            |q: ShareRequest| q@,
        ),
{
    match kit.share_file(url, ShareFileOptions { mime_type, title }) {
        Ok(q) => Ok(q),
        Err(e) => Err(e.message()),
    }
}

/// Reads the pending share without taking it.
pub fn get_pending_shared_content(kit: &ShareKit) -> (r: core::result::Result<
    Option<SharedContent>,
    String,
>)
    ensures
        reports(r, pending_read(kit@), |o: Option<SharedContent>| content_opt_view(o)),
{
    match kit.get_pending_shared_content() {
        Ok(o) => Ok(o),
        Err(e) => Err(e.message()),
    }
}

/// Drops the pending share.
pub fn clear_pending_shared_content(kit: &mut ShareKit) -> (r: core::result::Result<(), String>)
    ensures
        reports(r, clear_result(old(kit)@), |u: ()| u),
        final(kit)@ == after_clear(old(kit)@),
{
    match kit.clear_pending_shared_content() {
        Ok(()) => Ok(()),
        Err(e) => Err(e.message()),
    }
}

} // verus!
