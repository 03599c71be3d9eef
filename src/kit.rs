//! The per-application share service: it prepares outbound shares and keeps
//! the content received from other applications.
use vstd::prelude::*;
use crate::error::{ShareError, Result};
use crate::models::{
    copy_opt, opt_view, SharedContent, SharedContentView, ShareFileOptions, ShareTextOptions,
};
use crate::store::{content_opt_view, PendingStore};

verus! {

/// The platform family the host runs on.
#[derive(Clone, Copy, Debug, PartialEq, Eq, Structural)]
pub enum Platform {
    Windows,
    MacOs,
    Mobile,
    /// A desktop without a native share facility.
    OtherDesktop,
}

/// Whether the platform has a native share facility, outbound and inbound.
pub open spec fn supports_sharing(p: Platform) -> bool {
    p != Platform::OtherDesktop
}

/// An outbound share, ready for the native share surface. The platform shows
/// `title` and `description`; both are always set.
#[derive(Debug, PartialEq, Eq)]
pub enum ShareRequest {
    Text { title: String, description: String, text: String, mime_type: Option<String> },
    File { title: String, description: String, url: String, mime_type: Option<String> },
}

/// The mathematical value of a [`ShareRequest`].
pub enum ShareRequestView {
    Text {
        title: Seq<char>,
        description: Seq<char>,
        text: Seq<char>,
        mime_type: Option<Seq<char>>,
    },
    File {
        title: Seq<char>,
        description: Seq<char>,
        url: Seq<char>,
        mime_type: Option<Seq<char>>,
    },
}

impl View for ShareRequest {
    type V = ShareRequestView;

    open spec fn view(&self) -> ShareRequestView {
        match self {
            ShareRequest::Text { title, description, text, mime_type } => ShareRequestView::Text {
                title: title@,
                description: description@,
                text: text@,
                mime_type: opt_view(*mime_type),
            },
            ShareRequest::File { title, description, url, mime_type } => ShareRequestView::File {
                title: title@,
                description: description@,
                url: url@,
                mime_type: opt_view(*mime_type),
            },
        }
    }
}

/// The view of a prepared share, or of the error that prevented it.
pub open spec fn request_result_view(r: Result<ShareRequest>) -> core::result::Result<
    ShareRequestView,
    ShareError,
> {
    match r {
        Ok(q) => Ok(q@),
        Err(e) => Err(e),
    }
}

/// The view of a read of the pending share, or of the error that prevented it.
pub open spec fn pending_result_view(r: Result<Option<SharedContent>>) -> core::result::Result<
    Option<SharedContentView>,
    ShareError,
> {
    match r {
        Ok(o) => Ok(content_opt_view(o)),
        Err(e) => Err(e),
    }
}

/// The mathematical value of a [`ShareKit`].
pub struct ShareKitView {
    pub platform: Platform,
    pub app_name: Seq<char>,
    pub pending: Option<SharedContentView>,
}

/// A text share: titled with the application's name, described by the text itself.
pub open spec fn text_request(k: ShareKitView, text: Seq<char>, mime_type: Option<Seq<char>>) -> core::result::Result<
    ShareRequestView,
    ShareError,
> {
    if supports_sharing(k.platform) {
        Ok(
            ShareRequestView::Text {
                title: k.app_name,
                description: text,
                text,
                mime_type,
            },
        )
    } else {
        Err(ShareError::UnsupportedPlatform)
    }
}

/// A file share: titled and described by the given title, else by the application's name.
pub open spec fn file_request(
    k: ShareKitView,
    url: Seq<char>,
    mime_type: Option<Seq<char>>,
    title: Option<Seq<char>>,
) -> core::result::Result<ShareRequestView, ShareError> {
    if supports_sharing(k.platform) {
        let t = match title {
            Some(t) => t,
            None => k.app_name,
        };
        Ok(ShareRequestView::File { title: t, description: t, url, mime_type })
    } else {
        Err(ShareError::UnsupportedPlatform)
    }
}

/// What a read of the pending share returns.
pub open spec fn pending_read(k: ShareKitView) -> core::result::Result<
    Option<SharedContentView>,
    ShareError,
> {
    if supports_sharing(k.platform) {
        Ok(k.pending)
    } else {
        Err(ShareError::UnsupportedPlatform)
    }
}

/// What clearing the pending share returns.
pub open spec fn clear_result(k: ShareKitView) -> core::result::Result<(), ShareError> {
    if supports_sharing(k.platform) {
        Ok(())
    } else {
        Err(ShareError::UnsupportedPlatform)
    }
}

/// The service after the pending share is cleared.
pub open spec fn after_clear(k: ShareKitView) -> ShareKitView {
    if supports_sharing(k.platform) {
        ShareKitView { pending: None, ..k }
    } else {
        k
    }
}

/// Access to the share operations of one application.
#[derive(Debug)]
pub struct ShareKit {
    platform: Platform,
    app_name: String,
    pending: PendingStore,
}

impl View for ShareKit {
    type V = ShareKitView;

    closed spec fn view(&self) -> ShareKitView {
        ShareKitView { platform: self.platform, app_name: self.app_name@, pending: self.pending@ }
    }
}

impl ShareKit {
    /// A service for the application `app_name`, with nothing pending.
    pub fn new(platform: Platform, app_name: String) -> (r: Self)
        ensures
            r@ == (ShareKitView { platform, app_name: app_name@, pending: None }),
    {
        ShareKit { platform, app_name, pending: PendingStore::new() }
    }

    /// The platform this service runs on.
    pub fn platform(&self) -> (r: Platform)
        ensures
            r == self@.platform,
    {
        self.platform
    }

    /// Prepares a text share for the native share surface.
    pub fn share_text(&self, text: String, options: ShareTextOptions) -> (r: Result<ShareRequest>)
        ensures
            request_result_view(r) == text_request(self@, text@, opt_view(options.mime_type)),
    {
        if self.platform == Platform::OtherDesktop {
            return Err(ShareError::UnsupportedPlatform);
        }
        let description = text.clone();
        Ok(
            ShareRequest::Text {
                title: self.app_name.clone(),
                description,
                text,
                mime_type: options.mime_type,
            },
        )
    }

    /// Prepares a file share for the native share surface.
    pub fn share_file(&self, url: String, options: ShareFileOptions) -> (r: Result<ShareRequest>)
        ensures
            request_result_view(r) == file_request(
                self@,
                url@,
                opt_view(options.mime_type),
                opt_view(options.title),
            ),
    {
        if self.platform == Platform::OtherDesktop {
            return Err(ShareError::UnsupportedPlatform);
        }
        let title = match &options.title {
            Some(t) => t.clone(),
            None => self.app_name.clone(),
        };
        let description = title.clone();
        Ok(ShareRequest::File { title, description, url, mime_type: options.mime_type })
    }

    /// The share received while the front-end was not listening, if any; it stays pending.
    pub fn get_pending_shared_content(&self) -> (r: Result<Option<SharedContent>>)
        ensures
            pending_result_view(r) == pending_read(self@),
    {
        if self.platform == Platform::OtherDesktop {
            return Err(ShareError::UnsupportedPlatform);
        }
        Ok(self.pending.get())
    }

    /// Drops the pending share. The host deletes the cache of copied files.
    pub fn clear_pending_shared_content(&mut self) -> (r: Result<()>)
        ensures
            r == clear_result(old(self)@),
            final(self)@ == after_clear(old(self)@),
    {
        if self.platform == Platform::OtherDesktop {
            return Err(ShareError::UnsupportedPlatform);
        }
        self.pending.clear();
        Ok(())
    }

    /// Keeps `content` as the pending share, in place of any earlier one.
    pub fn receive(&mut self, content: SharedContent)
        ensures
            final(self)@ == (ShareKitView { pending: Some(content@), ..old(self)@ }),
    {
        self.pending.set(content);
    }
}

/// Clearing twice in a row succeeds both times, and then nothing is pending.
pub proof fn clear_is_idempotent(k: ShareKitView)
    requires
        supports_sharing(k.platform),
    ensures
        clear_result(k) is Ok,
        clear_result(after_clear(k)) is Ok,
        after_clear(after_clear(k)) == after_clear(k),
        pending_read(after_clear(after_clear(k))) == Ok::<Option<SharedContentView>, ShareError>(None),
{
}

} // verus!
