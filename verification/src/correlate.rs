//! The reply correlator: recovers the identifier of the origin post from a
//! message that was sent to the channel earlier.

use vstd::prelude::*;
use vstd::string::StrSliceExecFns;
use vstd::string::StringExecFns;
use crate::decimal::{
    decimal_spec, is_digit, lemma_decimal_digits, lemma_parse_decimal, parse_id, parse_spec,
};
use crate::format::{optional_field, origin_url_spec, quoted_body, render_spec, structured_spec};
use crate::model::{
    Field, FieldView, Panel, PanelView, PostView, RelayConfigView, RenderMode, carried_panels,
    field_views, panel_views,
};
use crate::text::chars_of;

verus! {

/// Why no origin identifier came out of a message.
#[derive(Clone, Copy, Debug, PartialEq, Eq, Structural)]
pub enum CorrelateError {
    /// No field of the message carries the address label.
    NotFound,
    /// The address field does not end in an identifier.
    Malformed,
}

/// The index just after the last slash of `s`, and zero where it has none.
pub open spec fn segment_start(s: Seq<char>) -> int
    decreases s.len(),
{
    if s.len() == 0 || s.last() == '/' {
        s.len() as int
    } else {
        segment_start(s.drop_last())
    }
}

/// The final segment of a slash-separated path. Trailing slashes and
/// trailing segments made of one dot are passed over; a path that then
/// ends in two dots, or in nothing, has no final segment.
pub open spec fn final_segment_spec(s: Seq<char>) -> Option<Seq<char>>
    decreases s.len(),
{
    if s.len() == 0 {
        None
    } else if s.last() == '/' {
        final_segment_spec(s.drop_last())
    } else {
        let segment = s.subrange(segment_start(s), s.len() as int);
        if segment =~= seq!['.'] {
            final_segment_spec(s.drop_last())
        } else if segment =~= seq!['.', '.'] {
            None
        } else {
            Some(segment)
        }
    }
}

/// The identifier in which an address ends: its final segment, read as a
/// decimal number.
pub open spec fn trailing_id_spec(url: Seq<char>) -> Option<u64> {
    match final_segment_spec(url) {
        Some(segment) => parse_spec(segment),
        None => None,
    }
}

/// A position with no slash from it to the end, and a slash or the start
/// before it, is where the last segment starts.
pub proof fn lemma_segment_start(s: Seq<char>, start: int)
    requires
        0 <= start <= s.len(),
        forall|j: int| start <= j < s.len() ==> s[j] != '/',
        start == 0 || s[start - 1] == '/',
    ensures
        segment_start(s) == start,
    decreases s.len(),
{
    if s.len() != 0 && s.last() != '/' {
        lemma_segment_start(s.drop_last(), start);
    }
}

/// The bounds of the final segment of `chars`.
fn final_segment_bounds(chars: &Vec<char>) -> (bounds: Option<(usize, usize)>)
    ensures
        match bounds {
            Some((from, to)) => from <= to <= chars@.len() && final_segment_spec(chars@) == Some(
                chars@.subrange(from as int, to as int),
            ),
            None => final_segment_spec(chars@) is None,
        },
{
    let mut end: usize = chars.len();
    assert(chars@.subrange(0, end as int) == chars@);
    while end > 0
        invariant
            end <= chars@.len(),
            final_segment_spec(chars@) == final_segment_spec(chars@.subrange(0, end as int)),
        decreases end,
    {
        let ghost head = chars@.subrange(0, end as int);
        assert(head.drop_last() == chars@.subrange(0, end - 1));
        if chars[end - 1] == '/' {
            end = end - 1;
        } else {
            let mut start: usize = end - 1;
            while start > 0 && chars[start - 1] != '/'
                invariant
                    start < end <= chars@.len(),
                    forall|j: int| start <= j < end ==> chars@[j] != '/',
                decreases start,
            {
                start = start - 1;
            }
            proof {
                lemma_segment_start(head, start as int);
            }
            let ghost segment = head.subrange(start as int, end as int);
            assert(segment == chars@.subrange(start as int, end as int));
            if end - start == 1 && chars[start] == '.' {
                assert(segment =~= seq!['.']);
                end = end - 1;
            } else if end - start == 2 && chars[start] == '.' && chars[start + 1] == '.' {
                assert(segment =~= seq!['.', '.']);
                return None;
            } else {
                assert(segment != seq!['.']) by {
                    if segment == seq!['.'] {
                        assert(segment.len() == 1 && segment[0] == '.');
                    }
                }
                assert(segment != seq!['.', '.']) by {
                    if segment == seq!['.', '.'] {
                        assert(segment.len() == 2 && segment[0] == '.' && segment[1] == '.');
                    }
                }
                return Some((start, end));
            }
        }
    }
    None
}

/// The final segment of a slash-separated path, if it has one.
pub fn final_segment(path: &str) -> (segment: Option<String>)
    ensures
        match segment {
            Some(text) => final_segment_spec(path@) == Some(text@),
            None => final_segment_spec(path@) is None,
        },
{
    let chars = chars_of(path);
    match final_segment_bounds(&chars) {
        Some((from, to)) => Some(String::from_str(path.substring_char(from, to))),
        None => None,
    }
}

/// The identifier in which an address ends, if it ends in one.
pub fn trailing_id(url: &str) -> (id: Option<u64>)
    ensures
        id == trailing_id_spec(url@),
{
    match final_segment(url) {
        Some(segment) => parse_id(segment.as_str()),
        None => None,
    }
}

/// The value of the first of `fields` whose label is `label`.
pub open spec fn first_labelled(fields: Seq<FieldView>, label: Seq<char>) -> Option<Seq<char>>
    decreases fields.len(),
{
    if fields.len() == 0 {
        None
    } else if fields[0].label == label {
        Some(fields[0].value)
    } else {
        first_labelled(fields.drop_first(), label)
    }
}

/// The value of the first field labelled `label` in the first of `panels`
/// that has such a field.
pub open spec fn first_in_panels(panels: Seq<PanelView>, label: Seq<char>) -> Option<Seq<char>>
    decreases panels.len(),
{
    if panels.len() == 0 {
        None
    } else {
        match first_labelled(panels[0].fields, label) {
            Some(value) => Some(value),
            None => first_in_panels(panels.drop_first(), label),
        }
    }
}

/// What the correlator answers on `panels`: the identifier in which the
/// first field labelled `url_label` ends; `Malformed` where that field
/// ends in none; `NotFound` where no field has that label. Later fields
/// with the label are not looked at.
pub open spec fn extract_spec(panels: Seq<PanelView>, url_label: Seq<char>) -> Result<
    u64,
    CorrelateError,
> {
    match first_in_panels(panels, url_label) {
        None => Err(CorrelateError::NotFound),
        Some(value) => match trailing_id_spec(value) {
            Some(id) => Ok(id),
            None => Err(CorrelateError::Malformed),
        },
    }
}

/// The position in `fields` of the first one labelled `label`.
fn find_labelled(fields: &Vec<Field>, label: &String) -> (found: Option<usize>)
    ensures
        match found {
            Some(i) => i < fields@.len() && first_labelled(field_views(fields@), label@) == Some(
                fields@[i as int].value@,
            ),
            None => first_labelled(field_views(fields@), label@) is None,
        },
{
    let ghost views = field_views(fields@);
    let mut i: usize = 0;
    assert(views.subrange(0, views.len() as int) == views);
    while i < fields.len()
        invariant
            i <= fields@.len(),
            views == field_views(fields@),
            first_labelled(views, label@) == first_labelled(
                views.subrange(i as int, views.len() as int),
                label@,
            ),
        decreases fields@.len() - i,
    {
        let ghost rest = views.subrange(i as int, views.len() as int);
        assert(rest[0] == fields@[i as int]@);
        assert(rest.drop_first() == views.subrange(i + 1, views.len() as int));
        if fields[i].label == *label {
            return Some(i);
        }
        i = i + 1;
    }
    assert(views.subrange(i as int, views.len() as int).len() == 0);
    None
}

/// Recovers the origin identifier from the panels of a channel message.
pub fn extract_origin_id(panels: &Vec<Panel>, url_label: &String) -> (origin: Result<
    u64,
    CorrelateError,
>)
    ensures
        origin == extract_spec(panel_views(panels@), url_label@),
{
    let ghost views = panel_views(panels@);
    let mut i: usize = 0;
    assert(views.subrange(0, views.len() as int) == views);
    while i < panels.len()
        invariant
            i <= panels@.len(),
            views == panel_views(panels@),
            first_in_panels(views, url_label@) == first_in_panels(
                views.subrange(i as int, views.len() as int),
                url_label@,
            ),
        decreases panels@.len() - i,
    {
        let ghost rest = views.subrange(i as int, views.len() as int);
        assert(rest[0] == panels@[i as int]@);
        assert(rest.drop_first() == views.subrange(i + 1, views.len() as int));
        match find_labelled(&panels[i].fields, url_label) {
            Some(at) => {
                return match trailing_id(panels[i].fields[at].value.as_str()) {
                    Some(id) => Ok(id),
                    None => Err(CorrelateError::Malformed),
                };
            },
            None => {},
        }
        i = i + 1;
    }
    assert(views.subrange(i as int, views.len() as int).len() == 0);
    Err(CorrelateError::NotFound)
}

/// In a run of fields made of two parts, the first field with a label is
/// the first one of the first part, or else the first one of the second.
pub proof fn lemma_first_labelled_concat(
    front: Seq<FieldView>,
    back: Seq<FieldView>,
    label: Seq<char>,
)
    ensures
        first_labelled(front + back, label) == match first_labelled(front, label) {
            Some(value) => Some(value),
            None => first_labelled(back, label),
        },
    decreases front.len(),
{
    if front.len() == 0 {
        assert(front + back == back);
    } else {
        assert((front + back)[0] == front[0]);
        assert((front + back).drop_first() == front.drop_first() + back);
        lemma_first_labelled_concat(front.drop_first(), back, label);
    }
}

/// The canonical address of a post ends in that post's identifier,
/// whatever the handle.
pub proof fn lemma_origin_url_ends_in_id(handle: Seq<char>, id: u64)
    ensures
        trailing_id_spec(origin_url_spec(handle, id)) == Some(id),
{
    reveal_strlit("/status/");
    let digits = decimal_spec(id as nat);
    let head = "https://twitter.com/"@ + handle + "/status/"@;
    let url = origin_url_spec(handle, id);
    lemma_decimal_digits(id as nat);
    lemma_parse_decimal(id);
    assert(url == head + digits);
    assert(head.len() > 0 && head.last() == '/');
    assert forall|j: int| head.len() <= j < url.len() implies url[j] != '/' by {
        assert(url[j] == digits[j - head.len()]);
        assert(is_digit(digits[j - head.len()]));
    }
    assert(url[head.len() - 1] == head.last());
    lemma_segment_start(url, head.len() as int);
    let segment = url.subrange(segment_start(url), url.len() as int);
    assert(segment =~= digits);
    assert(is_digit(digits[0]));
    assert(url.last() == digits.last());
    assert(is_digit(digits[digits.len() - 1]));
}

/// A post rendered in structured form, with its canonical address, gives
/// its own identifier back to the correlator, provided that no field
/// before the address field carries the address label.
pub proof fn lemma_structured_round_trip(
    post: PostView,
    parent: Option<Seq<char>>,
    handle: Seq<char>,
    config: RelayConfigView,
)
    requires
        config.mode == RenderMode::Structured,
        config.structured.text != config.structured.url,
        parent is Some ==> config.structured.reply != config.structured.url,
        post.quoted is Some ==> config.structured.quote != config.structured.url,
    ensures
        extract_spec(
            carried_panels(render_spec(post, parent, origin_url_spec(handle, post.id), config)),
            config.structured.url,
        ) == Ok::<u64, CorrelateError>(post.id),
{
    let labels = config.structured;
    let url = origin_url_spec(handle, post.id);
    let panel = structured_spec(post, parent, url, labels);
    let text = seq![FieldView { label: labels.text, value: post.body }];
    let reply = optional_field(labels.reply, parent);
    let quote = optional_field(labels.quote, quoted_body(post));
    let address = seq![FieldView { label: labels.url, value: url }];
    assert(first_labelled(text, labels.url) is None) by {
        assert(first_labelled(text.drop_first(), labels.url) is None);
    }
    assert(first_labelled(reply, labels.url) is None) by {
        if parent is Some {
            assert(first_labelled(reply.drop_first(), labels.url) is None);
        }
    }
    assert(first_labelled(quote, labels.url) is None) by {
        if post.quoted is Some {
            assert(first_labelled(quote.drop_first(), labels.url) is None);
        }
    }
    assert(first_labelled(address, labels.url) == Some(url));
    lemma_first_labelled_concat(text, reply, labels.url);
    lemma_first_labelled_concat(text + reply, quote, labels.url);
    lemma_first_labelled_concat(text + reply + quote, address, labels.url);
    assert(panel.fields == text + reply + quote + address);
    let panels = seq![panel];
    assert(panels[0] == panel);
    assert(first_in_panels(panels, labels.url) == Some(url));
    lemma_origin_url_ends_in_id(handle, post.id);
}

/// A post rendered as plain text gives the correlator nothing to find,
/// whatever label it looks for.
pub proof fn lemma_plaintext_not_found(
    post: PostView,
    parent: Option<Seq<char>>,
    url: Seq<char>,
    config: RelayConfigView,
    label: Seq<char>,
)
    requires
        config.mode == RenderMode::Plaintext,
    ensures
        extract_spec(carried_panels(render_spec(post, parent, url, config)), label) == Err::<
            u64,
            CorrelateError,
        >(CorrelateError::NotFound),
{
}

} // verus!
