//! The content formatter: from a post, its parent excerpt and its origin
//! address to the message sent to the channel.

use vstd::prelude::*;
use vstd::string::StringExecFns;
use crate::decimal::{decimal_spec, to_decimal};
use crate::model::{
    Field, FieldView, Panel, PanelView, PlaintextMarkers, PlaintextMarkersView, Post, PostView,
    RelayConfig, RelayConfigView, RenderMode, RenderedMessage, RenderedMessageView,
    StructuredLabels, StructuredLabelsView, field_views,
};

verus! {

/// The view of an optional text.
pub open spec fn text_of(text: Option<String>) -> Option<Seq<char>> {
    match text {
        Some(t) => Some(t@),
        None => None,
    }
}

/// The body of the post quoted by `post`, if it quotes one.
pub open spec fn quoted_body(post: PostView) -> Option<Seq<char>> {
    match post.quoted {
        Some(q) => Some(q.body),
        None => None,
    }
}

/// The canonical address of the post `id` of the account `handle`.
pub open spec fn origin_url_spec(handle: Seq<char>, id: u64) -> Seq<char> {
    "https://twitter.com/"@ + handle + "/status/"@ + decimal_spec(id as nat)
}

/// Builds the canonical address of the post `id` of the account `handle`.
pub fn origin_url(handle: &str, id: u64) -> (url: String)
    ensures
        url@ == origin_url_spec(handle@, id),
{
    let mut url = String::from_str("https://twitter.com/");
    url.append(handle);
    url.append("/status/");
    let digits = to_decimal(id);
    url.append(digits.as_str());
    url
}

/// The field `label`: `value` where there is a value, and no field otherwise.
pub open spec fn optional_field(label: Seq<char>, value: Option<Seq<char>>) -> Seq<FieldView> {
    match value {
        Some(v) => seq![FieldView { label, value: v }],
        None => Seq::empty(),
    }
}

/// The structured form of a post: the configured title, then the fields
/// text, reply (with a parent excerpt), quote (with a quoted post) and
/// address, in that order.
pub open spec fn structured_spec(
    post: PostView,
    parent: Option<Seq<char>>,
    url: Seq<char>,
    labels: StructuredLabelsView,
) -> PanelView {
    PanelView {
        title: labels.header,
        fields: seq![FieldView { label: labels.text, value: post.body }] + optional_field(
            labels.reply,
            parent,
        ) + optional_field(labels.quote, quoted_body(post)) + seq![
            FieldView { label: labels.url, value: url },
        ],
    }
}

/// Renders a post as a panel.
pub fn render_structured(
    post: &Post,
    parent: &Option<String>,
    url: &str,
    labels: &StructuredLabels,
) -> (panel: Panel)
    ensures
        panel@ == structured_spec(post@, text_of(*parent), url@, labels@),
{
    let mut fields: Vec<Field> = Vec::new();
    fields.push(Field { label: labels.text.clone(), value: post.body.clone() });
    assert(field_views(fields@) =~= seq![FieldView { label: labels.text@, value: post.body@ }]);
    let ghost head = field_views(fields@);
    match parent {
        Some(excerpt) => {
            fields.push(Field { label: labels.reply.clone(), value: excerpt.clone() });
        },
        None => {},
    }
    assert(field_views(fields@) =~= head + optional_field(labels.reply@, text_of(*parent)));
    let ghost with_reply = field_views(fields@);
    match &post.quoted {
        Some(quoted) => {
            fields.push(Field { label: labels.quote.clone(), value: quoted.body.clone() });
        },
        None => {},
    }
    assert(field_views(fields@) =~= with_reply + optional_field(labels.quote@, quoted_body(post@)));
    let ghost with_quote = field_views(fields@);
    fields.push(Field { label: labels.url.clone(), value: String::from_str(url) });
    assert(field_views(fields@) =~= with_quote + seq![FieldView { label: labels.url@, value: url@ }]);
    Panel { title: labels.header.clone(), fields }
}

/// An excerpt between its markers: the prefix, the excerpt as a quoted
/// line, and the postfix, each on a line of its own. Empty without excerpt.
pub open spec fn excerpt_block(
    prefix: Seq<char>,
    excerpt: Option<Seq<char>>,
    postfix: Seq<char>,
) -> Seq<char> {
    match excerpt {
        Some(text) => prefix + seq!['\n'] + seq!['>', ' '] + text + seq!['\n'] + postfix + seq![
            '\n',
        ],
        None => Seq::empty(),
    }
}

/// The plain-text form of a post: the parent's block, the quoted post's
/// block, then the body as it is.
pub open spec fn plaintext_spec(
    post: PostView,
    parent: Option<Seq<char>>,
    markers: PlaintextMarkersView,
) -> Seq<char> {
    excerpt_block(markers.reply_prefix, parent, markers.reply_postfix) + excerpt_block(
        markers.quote_prefix,
        quoted_body(post),
        markers.quote_postfix,
    ) + post.body
}

/// Appends to `content` the block of one excerpt.
fn push_block(content: &mut String, prefix: &str, excerpt: &str, postfix: &str)
    ensures
        final(content)@ == old(content)@ + excerpt_block(prefix@, Some(excerpt@), postfix@),
{
    proof {
        reveal_strlit("\n");
        reveal_strlit("> ");
    }
    assert("\n"@ =~= seq!['\n']);
    assert("> "@ =~= seq!['>', ' ']);
    content.append(prefix);
    content.append("\n");
    content.append("> ");
    content.append(excerpt);
    content.append("\n");
    content.append(postfix);
    content.append("\n");
    assert(content@ =~= old(content)@ + excerpt_block(prefix@, Some(excerpt@), postfix@));
}

/// Renders a post as one text.
pub fn render_plaintext(post: &Post, parent: &Option<String>, markers: &PlaintextMarkers) -> (text:
    String)
    ensures
        text@ == plaintext_spec(post@, text_of(*parent), markers@),
{
    let mut content = String::new();
    match parent {
        Some(excerpt) => {
            push_block(
                &mut content,
                markers.reply_prefix.as_str(),
                excerpt.as_str(),
                markers.reply_postfix.as_str(),
            );
        },
        None => {},
    }
    assert(content@ =~= excerpt_block(
        markers.reply_prefix@,
        text_of(*parent),
        markers.reply_postfix@,
    ));
    let ghost reply_block = content@;
    match &post.quoted {
        Some(quoted) => {
            push_block(
                &mut content,
                markers.quote_prefix.as_str(),
                quoted.body.as_str(),
                markers.quote_postfix.as_str(),
            );
        },
        None => {},
    }
    assert(content@ =~= reply_block + excerpt_block(
        markers.quote_prefix@,
        quoted_body(post@),
        markers.quote_postfix@,
    ));
    content.append(post.body.as_str());
    content
}

/// The message for a post in the configured form. The plain-text form
/// holds no address.
pub open spec fn render_spec(
    post: PostView,
    parent: Option<Seq<char>>,
    url: Seq<char>,
    config: RelayConfigView,
) -> RenderedMessageView {
    match config.mode {
        RenderMode::Structured => RenderedMessageView::Structured(
            structured_spec(post, parent, url, config.structured),
        ),
        RenderMode::Plaintext => RenderedMessageView::Plaintext(
            plaintext_spec(post, parent, config.plaintext),
        ),
    }
}

/// Renders a post in the form that the configuration selects.
pub fn render(post: &Post, parent: &Option<String>, url: &str, config: &RelayConfig) -> (message:
    RenderedMessage)
    ensures
        message@ == render_spec(post@, text_of(*parent), url@, config@),
{
    match config.mode {
        RenderMode::Structured => RenderedMessage::Structured(
            render_structured(post, parent, url, &config.structured),
        ),
        RenderMode::Plaintext => RenderedMessage::Plaintext(
            render_plaintext(post, parent, &config.plaintext),
        ),
    }
}

} // verus!
