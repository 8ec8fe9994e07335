use vstd::prelude::*;

verus! {

use crate::escape::Syntax;
use crate::metrics::MetricsSink;
use crate::metrics::QueryKind;
use crate::metrics::spec_counted;

/// One selectable inline result card, the transport shape of a summary
/// response: a fixed id and card title, the rendered text and its syntax
/// tag.
pub struct InlineArticle {
    pub id: String,
    pub title: String,
    pub message_text: String,
    pub syntax: Syntax,
}

/// The transport shape of a direct command reply: the rendered text and
/// its syntax tag.
pub struct CommandReply {
    pub message_text: String,
    pub syntax: Syntax,
}

/// Wrap a rendered summary into the single selectable inline result and
/// count the request. Counting is fire-and-forget: it can neither block
/// nor fail the response.
pub fn assemble_inline_article(text: String, syntax: Syntax, sink: &mut MetricsSink) -> (r:
    InlineArticle)
    ensures
        r.id@ == "0"@,
        r.title@ == "Show ongoing"@,
        r.message_text == text,
        r.syntax == syntax,
        spec_counted(*old(sink), *final(sink), QueryKind::Ongoing),
{
    sink.increment_counter(QueryKind::Ongoing);
    InlineArticle {
        id: "0".to_owned(),
        title: "Show ongoing".to_owned(),
        message_text: text,
        syntax,
    }
}

/// Wrap a rendered detail text into a direct reply and count the request.
/// Counting is fire-and-forget: it can neither block nor fail the
/// response.
pub fn assemble_reply(text: String, syntax: Syntax, sink: &mut MetricsSink) -> (r: CommandReply)
    ensures
        r.message_text == text,
        r.syntax == syntax,
        spec_counted(*old(sink), *final(sink), QueryKind::EventDetail),
{
    sink.increment_counter(QueryKind::EventDetail);
    CommandReply { message_text: text, syntax }
}

} // verus!
