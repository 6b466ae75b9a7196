//! The values that flow through the relay: accounts, posts, channel
//! messages and the configuration, each with its mathematical view.

use vstd::prelude::*;

verus! {

/// The account whose posts are relayed. Resolved once, never changed.
#[derive(Clone, Debug, PartialEq, Eq)]
pub struct WatchedAccount {
    pub id: u64,
    pub name: String,
    pub handle: String,
}

pub struct WatchedAccountView {
    pub id: u64,
    pub name: Seq<char>,
    pub handle: Seq<char>,
}

impl View for WatchedAccount {
    type V = WatchedAccountView;

    open spec fn view(&self) -> WatchedAccountView {
        WatchedAccountView { id: self.id, name: self.name@, handle: self.handle@ }
    }
}

/// A post quoted inside another post.
#[derive(Clone, Debug, PartialEq, Eq)]
pub struct QuotedPost {
    pub id: u64,
    pub body: String,
}

pub struct QuotedPostView {
    pub id: u64,
    pub body: Seq<char>,
}

impl View for QuotedPost {
    type V = QuotedPostView;

    open spec fn view(&self) -> QuotedPostView {
        QuotedPostView { id: self.id, body: self.body@ }
    }
}

/// A unit of content of the origin platform. `parent_id` is set on a reply.
#[derive(Clone, Debug, PartialEq, Eq)]
pub struct Post {
    pub id: u64,
    pub author_id: u64,
    pub body: String,
    pub parent_id: Option<u64>,
    pub quoted: Option<QuotedPost>,
}

pub struct PostView {
    pub id: u64,
    pub author_id: u64,
    pub body: Seq<char>,
    pub parent_id: Option<u64>,
    pub quoted: Option<QuotedPostView>,
}

impl View for Post {
    type V = PostView;

    open spec fn view(&self) -> PostView {
        PostView {
            id: self.id,
            author_id: self.author_id,
            body: self.body@,
            parent_id: self.parent_id,
            quoted: match self.quoted {
                Some(q) => Some(q@),
                None => None,
            },
        }
    }
}

/// One labelled field of a panel.
#[derive(Clone, Debug, PartialEq, Eq)]
pub struct Field {
    pub label: String,
    pub value: String,
}

pub struct FieldView {
    pub label: Seq<char>,
    pub value: Seq<char>,
}

impl View for Field {
    type V = FieldView;

    open spec fn view(&self) -> FieldView {
        FieldView { label: self.label@, value: self.value@ }
    }
}

/// The views of a run of fields, in order.
pub open spec fn field_views(fields: Seq<Field>) -> Seq<FieldView> {
    Seq::new(fields.len(), |i: int| fields[i]@)
}

/// A titled block of labelled fields inside a channel message.
#[derive(Clone, Debug, PartialEq, Eq)]
pub struct Panel {
    pub title: String,
    pub fields: Vec<Field>,
}

pub struct PanelView {
    pub title: Seq<char>,
    pub fields: Seq<FieldView>,
}

impl View for Panel {
    type V = PanelView;

    open spec fn view(&self) -> PanelView {
        PanelView { title: self.title@, fields: field_views(self.fields@) }
    }
}

/// The views of a run of panels, in order.
pub open spec fn panel_views(panels: Seq<Panel>) -> Seq<PanelView> {
    Seq::new(panels.len(), |i: int| panels[i]@)
}

/// What is sent to the destination channel for one post.
#[derive(Clone, Debug, PartialEq, Eq)]
pub enum RenderedMessage {
    /// A titled panel with labelled fields.
    Structured(Panel),
    /// A single text.
    Plaintext(String),
}

pub enum RenderedMessageView {
    Structured(PanelView),
    Plaintext(Seq<char>),
}

impl View for RenderedMessage {
    type V = RenderedMessageView;

    open spec fn view(&self) -> RenderedMessageView {
        match self {
            RenderedMessage::Structured(panel) => RenderedMessageView::Structured(panel@),
            RenderedMessage::Plaintext(text) => RenderedMessageView::Plaintext(text@),
        }
    }
}

/// The panels that a rendered message carries into the channel: its one
/// panel in structured form, none in plain text.
pub open spec fn carried_panels(message: RenderedMessageView) -> Seq<PanelView> {
    match message {
        RenderedMessageView::Structured(panel) => seq![panel],
        RenderedMessageView::Plaintext(_) => Seq::empty(),
    }
}

/// The text that a rendered message carries into the channel: empty in
/// structured form.
pub open spec fn carried_text(message: RenderedMessageView) -> Seq<char> {
    match message {
        RenderedMessageView::Structured(_) => Seq::empty(),
        RenderedMessageView::Plaintext(text) => text,
    }
}

impl RenderedMessage {
    /// Splits the message into the text and the panels to send.
    pub fn into_parts(self) -> (parts: (String, Vec<Panel>))
        ensures
            parts.0@ == carried_text(self@),
            panel_views(parts.1@) == carried_panels(self@),
    {
        match self {
            RenderedMessage::Structured(panel) => {
                let mut panels: Vec<Panel> = Vec::new();
                panels.push(panel);
                assert(panel_views(panels@) =~= seq![panel@]);
                (String::new(), panels)
            },
            RenderedMessage::Plaintext(text) => {
                let panels: Vec<Panel> = Vec::new();
                assert(panel_views(panels@) =~= Seq::empty());
                (text, panels)
            },
        }
    }
}

/// A message as it stands in the channel.
#[derive(Clone, Debug, PartialEq, Eq)]
pub struct ChannelMessage {
    pub author_id: u64,
    pub content: String,
    pub panels: Vec<Panel>,
}

pub struct ChannelMessageView {
    pub author_id: u64,
    pub content: Seq<char>,
    pub panels: Seq<PanelView>,
}

impl View for ChannelMessage {
    type V = ChannelMessageView;

    open spec fn view(&self) -> ChannelMessageView {
        ChannelMessageView {
            author_id: self.author_id,
            content: self.content@,
            panels: panel_views(self.panels@),
        }
    }
}

/// A message that arrives from the channel, with the message it answers.
#[derive(Clone, Debug, PartialEq, Eq)]
pub struct IncomingMessage {
    pub content: String,
    pub referenced: Option<ChannelMessage>,
}

pub struct IncomingMessageView {
    pub content: Seq<char>,
    pub referenced: Option<ChannelMessageView>,
}

impl View for IncomingMessage {
    type V = IncomingMessageView;

    open spec fn view(&self) -> IncomingMessageView {
        IncomingMessageView {
            content: self.content@,
            referenced: match self.referenced {
                Some(m) => Some(m@),
                None => None,
            },
        }
    }
}

/// The two forms a relayed post can take in the channel.
#[derive(Clone, Copy, Debug, PartialEq, Eq, Structural)]
pub enum RenderMode {
    Structured,
    Plaintext,
}

/// The title and field labels of the structured form.
#[derive(Clone, Debug, PartialEq, Eq)]
pub struct StructuredLabels {
    pub header: String,
    pub text: String,
    pub reply: String,
    pub quote: String,
    pub url: String,
}

pub struct StructuredLabelsView {
    pub header: Seq<char>,
    pub text: Seq<char>,
    pub reply: Seq<char>,
    pub quote: Seq<char>,
    pub url: Seq<char>,
}

impl View for StructuredLabels {
    type V = StructuredLabelsView;

    open spec fn view(&self) -> StructuredLabelsView {
        StructuredLabelsView {
            header: self.header@,
            text: self.text@,
            reply: self.reply@,
            quote: self.quote@,
            url: self.url@,
        }
    }
}

/// The markers set round the excerpts of the plain-text form.
#[derive(Clone, Debug, PartialEq, Eq)]
pub struct PlaintextMarkers {
    pub reply_prefix: String,
    pub reply_postfix: String,
    pub quote_prefix: String,
    pub quote_postfix: String,
}

pub struct PlaintextMarkersView {
    pub reply_prefix: Seq<char>,
    pub reply_postfix: Seq<char>,
    pub quote_prefix: Seq<char>,
    pub quote_postfix: Seq<char>,
}

impl View for PlaintextMarkers {
    type V = PlaintextMarkersView;

    open spec fn view(&self) -> PlaintextMarkersView {
        PlaintextMarkersView {
            reply_prefix: self.reply_prefix@,
            reply_postfix: self.reply_postfix@,
            quote_prefix: self.quote_prefix@,
            quote_postfix: self.quote_postfix@,
        }
    }
}

/// What the relay is configured with. Loaded once, never changed.
#[derive(Clone, Debug, PartialEq, Eq)]
pub struct RelayConfig {
    pub channel_id: u64,
    pub reply_enabled: bool,
    pub mode: RenderMode,
    pub structured: StructuredLabels,
    pub plaintext: PlaintextMarkers,
}

pub struct RelayConfigView {
    pub channel_id: u64,
    pub reply_enabled: bool,
    pub mode: RenderMode,
    pub structured: StructuredLabelsView,
    pub plaintext: PlaintextMarkersView,
}

impl View for RelayConfig {
    type V = RelayConfigView;

    open spec fn view(&self) -> RelayConfigView {
        RelayConfigView {
            channel_id: self.channel_id,
            reply_enabled: self.reply_enabled,
            mode: self.mode,
            structured: self.structured@,
            plaintext: self.plaintext@,
        }
    }
}

} // verus!
