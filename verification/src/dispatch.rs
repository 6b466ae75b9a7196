//! The dispatch worker's decisions for one post: whether a parent is to be
//! fetched first, and what is delivered.

use vstd::prelude::*;
use crate::format::{origin_url, origin_url_spec, render, render_spec, text_of};
use crate::model::{
    FieldView, Post, PostView, RelayConfig, RelayConfigView, RenderMode, RenderedMessage,
    RenderedMessageView, WatchedAccount, WatchedAccountView,
};

verus! {

/// What the worker does next.
#[derive(Clone, Debug, PartialEq, Eq)]
pub enum WorkerAction {
    /// Fetch the post with this identifier, then finish with its body, or
    /// with nothing where the fetch fails.
    FetchParent(u64),
    /// Deliver this message to the channel.
    Deliver(RenderedMessage),
}

pub enum WorkerActionView {
    FetchParent(u64),
    Deliver(RenderedMessageView),
}

impl View for WorkerAction {
    type V = WorkerActionView;

    open spec fn view(&self) -> WorkerActionView {
        match self {
            WorkerAction::FetchParent(id) => WorkerActionView::FetchParent(*id),
            WorkerAction::Deliver(message) => WorkerActionView::Deliver(message@),
        }
    }
}

/// The message delivered for `post`: rendered in the configured form, with
/// the address made of the watched account's handle and the post's
/// identifier.
pub open spec fn delivery_spec(
    watched: WatchedAccountView,
    config: RelayConfigView,
    post: PostView,
    parent: Option<Seq<char>>,
) -> RenderedMessageView {
    render_spec(post, parent, origin_url_spec(watched.handle, post.id), config)
}

/// The first step of a worker: a reply asks for its parent, any other post
/// is delivered at once, without parent excerpt.
pub open spec fn begin_spec(
    watched: WatchedAccountView,
    config: RelayConfigView,
    post: PostView,
) -> WorkerActionView {
    match post.parent_id {
        Some(parent_id) => WorkerActionView::FetchParent(parent_id),
        None => WorkerActionView::Deliver(delivery_spec(watched, config, post, None)),
    }
}

/// Starts the work on one post.
pub fn begin(watched: &WatchedAccount, config: &RelayConfig, post: &Post) -> (action: WorkerAction)
    ensures
        action@ == begin_spec(watched@, config@, post@),
{
    match post.parent_id {
        Some(parent_id) => WorkerAction::FetchParent(parent_id),
        None => WorkerAction::Deliver(finish(watched, config, post, &None)),
    }
}

/// Finishes the work on one post once the fetch of its parent has ended:
/// `parent` is the parent's body, or `None` where the fetch failed, in
/// which case the message goes out without parent excerpt.
pub fn finish(
    watched: &WatchedAccount,
    config: &RelayConfig,
    post: &Post,
    parent: &Option<String>,
) -> (message: RenderedMessage)
    ensures
        message@ == delivery_spec(watched@, config@, post@, text_of(*parent)),
{
    let url = origin_url(watched.handle.as_str(), post.id);
    render(post, parent, url.as_str(), config)
}

/// Every message delivered in structured form carries the canonical
/// address of its post, in its last field and under the address label.
pub proof fn lemma_delivery_carries_address(
    watched: WatchedAccountView,
    config: RelayConfigView,
    post: PostView,
    parent: Option<Seq<char>>,
)
    requires
        config.mode == RenderMode::Structured,
    ensures
        delivery_spec(watched, config, post, parent) is Structured,
        delivery_spec(watched, config, post, parent)->Structured_0.fields.last() == (FieldView {
            label: config.structured.url,
            value: origin_url_spec(watched.handle, post.id),
        }),
{
}

} // verus!
