//! The relay service's reply-back path: from a message of the channel to
//! the reply that is published on the origin platform.

use vstd::prelude::*;
use vstd::string::StringExecFns;
use crate::correlate::{
    extract_origin_id, extract_spec, lemma_plaintext_not_found, lemma_structured_round_trip,
};
use crate::dispatch::delivery_spec;
use crate::format::{origin_url, origin_url_spec};
use crate::model::{
    ChannelMessageView, IncomingMessage, IncomingMessageView, PostView, RelayConfig,
    RelayConfigView, RenderMode, RenderedMessageView, WatchedAccount, WatchedAccountView,
    carried_panels, carried_text,
};

verus! {

/// A reply to publish on the origin platform.
#[derive(Clone, Debug, PartialEq, Eq)]
pub struct ReplyDraft {
    pub text: String,
    pub in_reply_to: u64,
}

pub struct ReplyDraftView {
    pub text: Seq<char>,
    pub in_reply_to: u64,
}

impl View for ReplyDraft {
    type V = ReplyDraftView;

    open spec fn view(&self) -> ReplyDraftView {
        ReplyDraftView { text: self.text@, in_reply_to: self.in_reply_to }
    }
}

/// The view of an optional draft.
pub open spec fn draft_of(draft: Option<ReplyDraft>) -> Option<ReplyDraftView> {
    match draft {
        Some(d) => Some(d@),
        None => None,
    }
}

/// The text of a reply: a mention of the watched account, a space, and
/// the text typed in the channel.
pub open spec fn reply_text_spec(handle: Seq<char>, content: Seq<char>) -> Seq<char> {
    seq!['@'] + handle + seq![' '] + content
}

/// The reply that a channel message leads to. There is one exactly when
/// replies are enabled, the message answers an earlier message, that
/// earlier message was written by this service, and the correlator finds
/// an origin identifier in it.
pub open spec fn plan_reply_spec(
    config: RelayConfigView,
    watched: WatchedAccountView,
    own_id: u64,
    incoming: IncomingMessageView,
) -> Option<ReplyDraftView> {
    if !config.reply_enabled {
        None
    } else {
        match incoming.referenced {
            None => None,
            Some(referenced) => if referenced.author_id != own_id {
                None
            } else {
                match extract_spec(referenced.panels, config.structured.url) {
                    Ok(id) => Some(
                        ReplyDraftView {
                            text: reply_text_spec(watched.handle, incoming.content),
                            in_reply_to: id,
                        },
                    ),
                    Err(_) => None,
                }
            },
        }
    }
}

/// Decides whether a channel message is published as a reply, and as
/// which. `own_id` is this service's own user in the channel.
pub fn plan_reply(
    config: &RelayConfig,
    watched: &WatchedAccount,
    own_id: u64,
    incoming: &IncomingMessage,
) -> (draft: Option<ReplyDraft>)
    ensures
        draft_of(draft) == plan_reply_spec(config@, watched@, own_id, incoming@),
{
    if !config.reply_enabled {
        return None;
    }
    match &incoming.referenced {
        None => None,
        Some(referenced) => {
            if referenced.author_id != own_id {
                return None;
            }
            match extract_origin_id(&referenced.panels, &config.structured.url) {
                Ok(id) => {
                    proof {
                        reveal_strlit("@");
                        reveal_strlit(" ");
                    }
                    assert("@"@ =~= seq!['@']);
                    assert(" "@ =~= seq![' ']);
                    let mut text = String::from_str("@");
                    text.append(watched.handle.as_str());
                    text.append(" ");
                    text.append(incoming.content.as_str());
                    Some(ReplyDraft { text, in_reply_to: id })
                },
                Err(_) => None,
            }
        },
    }
}

/// The confirmation written to the channel once a reply is published.
pub open spec fn confirmation_spec(handle: Seq<char>, id: u64) -> Seq<char> {
    "Postet reply: "@ + origin_url_spec(handle, id)
}

/// Builds the confirmation for the published reply `id` of the account
/// `handle`: it holds the reply's canonical address.
pub fn confirmation(handle: &str, id: u64) -> (text: String)
    ensures
        text@ == confirmation_spec(handle@, id),
{
    let mut text = String::from_str("Postet reply: ");
    let url = origin_url(handle, id);
    text.append(url.as_str());
    text
}

/// A rendered message as it stands in the channel once `author_id` has
/// sent it.
pub open spec fn as_sent(message: RenderedMessageView, author_id: u64) -> ChannelMessageView {
    ChannelMessageView {
        author_id,
        content: carried_text(message),
        panels: carried_panels(message),
    }
}

/// With replies enabled and the structured form, an answer to a message
/// that this service delivered for a post is published as a reply to that
/// very post, provided that no field before the address field carries the
/// address label.
pub proof fn lemma_reply_reaches_relayed_post(
    config: RelayConfigView,
    watched: WatchedAccountView,
    own_id: u64,
    post: PostView,
    parent: Option<Seq<char>>,
    content: Seq<char>,
)
    requires
        config.reply_enabled,
        config.mode == RenderMode::Structured,
        config.structured.text != config.structured.url,
        parent is Some ==> config.structured.reply != config.structured.url,
        post.quoted is Some ==> config.structured.quote != config.structured.url,
    ensures
        plan_reply_spec(
            config,
            watched,
            own_id,
            IncomingMessageView {
                content,
                referenced: Some(as_sent(delivery_spec(watched, config, post, parent), own_id)),
            },
        ) == Some(
            ReplyDraftView {
                text: reply_text_spec(watched.handle, content),
                in_reply_to: post.id,
            },
        ),
{
    lemma_structured_round_trip(post, parent, watched.handle, config);
}

/// In the plain-text form no answer to a delivered message is ever
/// published: the message holds nothing to find the post by.
pub proof fn lemma_no_reply_to_plaintext(
    config: RelayConfigView,
    watched: WatchedAccountView,
    own_id: u64,
    post: PostView,
    parent: Option<Seq<char>>,
    content: Seq<char>,
)
    requires
        config.mode == RenderMode::Plaintext,
    ensures
        plan_reply_spec(
            config,
            watched,
            own_id,
            IncomingMessageView {
                content,
                referenced: Some(as_sent(delivery_spec(watched, config, post, parent), own_id)),
            },
        ) is None,
{
    lemma_plaintext_not_found(
        post,
        parent,
        origin_url_spec(watched.handle, post.id),
        config,
        config.structured.url,
    );
}

} // verus!
