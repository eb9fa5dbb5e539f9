//! Session export: Markdown and self-contained HTML renderings of a chat.

use vstd::prelude::*;

use crate::json::{json_display_text, json_text};
use crate::text::{chars_of, decimal, digit_char, push_char, push_decimal, push_str, string_of};
use crate::types::{ChatMessage, MessageContent, MessageRole};

verus! {

/// The start of the HTML document, up to the title text.
pub const HTML_DOC_START: &'static str = r#"<!DOCTYPE html>
<html lang="en">
<head>
<meta charset="utf-8">
<meta name="viewport" content="width=device-width, initial-scale=1">
<title>Chat Session — "#;

/// From the end of the title to the start of the page heading's text.
pub const HTML_DOC_HEADING: &'static str = r#"</title>
<style>
  :root {
    --bg: #18181b;
    --surface: #27272a;
    --surface-alt: #3f3f46;
    --text: #fafafa;
    --text-muted: #a1a1aa;
    --accent: #f59e0b;
    --user-bg: #1e3a5f;
    --model-bg: #292524;
    --border: #3f3f46;
  }
  * { margin: 0; padding: 0; box-sizing: border-box; }
  body {
    font-family: -apple-system, BlinkMacSystemFont, 'Segoe UI', Roboto, sans-serif;
    background: var(--bg);
    color: var(--text);
    line-height: 1.6;
    padding: 2rem;
    max-width: 800px;
    margin: 0 auto;
  }
  h1 {
    color: var(--accent);
    margin-bottom: 1.5rem;
    font-size: 1.5rem;
    border-bottom: 1px solid var(--border);
    padding-bottom: 0.75rem;
  }
  .message {
    margin-bottom: 1rem;
    padding: 1rem;
    border-radius: 8px;
    border: 1px solid var(--border);
  }
  .message.user {
    background: var(--user-bg);
  }
  .message.model {
    background: var(--model-bg);
  }
  .message.system {
    background: var(--surface);
    opacity: 0.7;
  }
  .role {
    font-weight: 600;
    color: var(--accent);
    margin-bottom: 0.25rem;
    font-size: 0.85rem;
    text-transform: uppercase;
    letter-spacing: 0.05em;
  }
  .content {
    white-space: pre-wrap;
    word-wrap: break-word;
  }
  .content pre {
    background: var(--surface-alt);
    padding: 0.75rem;
    border-radius: 4px;
    overflow-x: auto;
    margin: 0.5rem 0;
  }
  .timing {
    margin-top: 0.5rem;
    font-size: 0.8rem;
    color: var(--text-muted);
    font-style: italic;
  }
  .image-placeholder {
    display: inline-block;
    background: var(--surface-alt);
    padding: 0.25rem 0.5rem;
    border-radius: 4px;
    font-size: 0.85rem;
    color: var(--text-muted);
  }
</style>
</head>
<body>
<h1>Chat Session &mdash; "#;

/// The HTML form of one character.
pub open spec fn escape_char(c: char) -> Seq<char> {
    if c == '&' {
        "&amp;"@
    } else if c == '<' {
        "&lt;"@
    } else if c == '>' {
        "&gt;"@
    } else if c == '"' {
        "&quot;"@
    } else {
        seq![c]
    }
}

/// `s` with `&`, `<`, `>` and `"` replaced by their HTML entities.
pub open spec fn escape_html(s: Seq<char>) -> Seq<char>
    decreases s.len(),
{
    if s.len() == 0 {
        Seq::empty()
    } else {
        escape_html(s.drop_last()) + escape_char(s.last())
    }
}

/// Escapes `&`, `<`, `>` and `"` for HTML.
pub fn html_escape(s: &str) -> (r: String)
    ensures
        r@ == escape_html(s@),
{
    let cs = chars_of(s);
    let mut out = String::new();
    let mut i: usize = 0;
    while i < cs.len()
        invariant
            i <= cs@.len(),
            cs@ == s@,
            out@ == escape_html(s@.subrange(0, i as int)),
        decreases cs.len() - i,
    {
        let c = cs[i];
        if c == '&' {
            push_str(&mut out, "&amp;");
        } else if c == '<' {
            push_str(&mut out, "&lt;");
        } else if c == '>' {
            push_str(&mut out, "&gt;");
        } else if c == '"' {
            push_str(&mut out, "&quot;");
        } else {
            push_char(&mut out, c);
        }
        proof {
            let p = s@.subrange(0, i + 1);
            assert(p.drop_last() == s@.subrange(0, i as int));
            assert(p.last() == c);
        }
        i = i + 1;
    }
    assert(s@.subrange(0, s@.len() as int) == s@);
    out
}

/// Escaping works character by character: escaping joined text is joining
/// the escaped parts, `&`, `<`, `>` and `"` become `&amp;`, `&lt;`, `&gt;`
/// and `&quot;`, and text without them is left as it is.
pub proof fn law_escape_html_per_character(a: Seq<char>, b: Seq<char>)
    ensures
        escape_html(a + b) == escape_html(a) + escape_html(b),
        escape_html(seq!['&']) == "&amp;"@,
        escape_html(seq!['<']) == "&lt;"@,
        escape_html(seq!['>']) == "&gt;"@,
        escape_html(seq!['"']) == "&quot;"@,
        (forall|i: int| 0 <= i < a.len() ==> #[trigger] a[i] != '&' && a[i] != '<' && a[i] != '>' && a[i] != '"')
            ==> escape_html(a) == a,
    decreases a.len() + b.len(),
{
    assert(seq!['&'].last() == '&' && seq!['<'].last() == '<' && seq!['>'].last() == '>' && seq!['"'].last() == '"');
    assert(escape_char('&') == "&amp;"@ && escape_char('<') == "&lt;"@);
    assert(seq!['&'].drop_last() =~= Seq::<char>::empty());
    assert(seq!['<'].drop_last() =~= Seq::<char>::empty());
    assert(seq!['>'].drop_last() =~= Seq::<char>::empty());
    assert(seq!['"'].drop_last() =~= Seq::<char>::empty());
    assert(Seq::<char>::empty() + "&amp;"@ =~= "&amp;"@);
    assert(Seq::<char>::empty() + "&lt;"@ =~= "&lt;"@);
    assert(Seq::<char>::empty() + "&gt;"@ =~= "&gt;"@);
    assert(Seq::<char>::empty() + "&quot;"@ =~= "&quot;"@);
    assert(escape_html(seq!['&']) == escape_html(seq!['&'].drop_last()) + escape_char('&'));
    assert(escape_html(seq!['<']) == escape_html(seq!['<'].drop_last()) + escape_char('<'));
    if b.len() == 0 {
        assert(a + b =~= a);
        assert(escape_html(a) + escape_html(b) =~= escape_html(a));
    } else {
        law_escape_html_per_character(a, b.drop_last());
        assert((a + b).drop_last() =~= a + b.drop_last());
        assert((a + b).last() == b.last());
        assert(escape_html(a + b) =~= escape_html(a) + escape_html(b));
    }
    if a.len() > 0 && (forall|i: int| 0 <= i < a.len() ==> #[trigger] a[i] != '&' && a[i] != '<' && a[i] != '>'
        && a[i] != '"') {
        law_escape_html_per_character(a.drop_last(), Seq::empty());
        assert(forall|i: int| 0 <= i < a.drop_last().len() ==> a.drop_last()[i] == a[i]);
        assert(escape_html(a) =~= a.drop_last() + seq![a.last()]);
        assert(a.drop_last() + seq![a.last()] =~= a);
    }
}

/// Escaping leaves no `<`, `>` or `"` in the text, so escaped text never opens
/// or closes a tag or an attribute value.
pub proof fn lemma_escaped_has_no_markup(s: Seq<char>)
    ensures
        forall|i: int|
            0 <= i < escape_html(s).len() ==> {
                let c = #[trigger] escape_html(s)[i];
                c != '<' && c != '>' && c != '"'
            },
    decreases s.len(),
{
    if s.len() > 0 {
        lemma_escaped_has_no_markup(s.drop_last());
        reveal_strlit("&amp;");
        reveal_strlit("&lt;");
        reveal_strlit("&gt;");
        reveal_strlit("&quot;");
        let a = escape_html(s.drop_last());
        let b = escape_char(s.last());
        assert forall|i: int| 0 <= i < escape_html(s).len() implies {
            let c = #[trigger] escape_html(s)[i];
            c != '<' && c != '>' && c != '"'
        } by {
            if i < a.len() {
                assert(escape_html(s)[i] == a[i]);
            } else {
                assert(escape_html(s)[i] == b[i - a.len()]);
            }
        }
    }
}

/// The label of a role.
pub open spec fn role_label(r: MessageRole) -> Seq<char> {
    match r {
        MessageRole::User => "User"@,
        MessageRole::Model => "Model"@,
        MessageRole::System => "System"@,
    }
}

/// The CSS class of a role.
pub open spec fn role_class(r: MessageRole) -> Seq<char> {
    match r {
        MessageRole::User => "user"@,
        MessageRole::Model => "model"@,
        MessageRole::System => "system"@,
    }
}

fn role_label_str(r: MessageRole) -> (s: &'static str)
    ensures
        s@ == role_label(r),
{
    match r {
        MessageRole::User => "User",
        MessageRole::Model => "Model",
        MessageRole::System => "System",
    }
}

fn role_class_str(r: MessageRole) -> (s: &'static str)
    ensures
        s@ == role_class(r),
{
    match r {
        MessageRole::User => "user",
        MessageRole::Model => "model",
        MessageRole::System => "system",
    }
}

/// The Markdown form of a message's content.
pub open spec fn content_markdown(c: MessageContent) -> Seq<char> {
    match c {
        MessageContent::Text(s) => s@,
        MessageContent::Image { mime_type, caption, .. } => "[Image: "@ + mime_type@ + "]"@ + match caption {
            Some(cap) => " \u{2014} "@ + cap@,
            None => Seq::empty(),
        },
        MessageContent::ModelOutput(v) => json_text(v),
        MessageContent::Streaming { partial, .. } => partial@,
        MessageContent::Batch(items) => "[Batch: "@ + decimal(items@.len()) + " images]"@,
    }
}

/// The HTML form of a message's content.
pub open spec fn content_html(c: MessageContent) -> Seq<char> {
    match c {
        MessageContent::Text(s) => escape_html(s@),
        MessageContent::Image { mime_type, caption, .. } => "<span class=\"image-placeholder\">[Image: "@
            + escape_html(mime_type@) + "]"@ + match caption {
            Some(cap) => " &mdash; "@ + escape_html(cap@),
            None => Seq::empty(),
        } + "</span>"@,
        MessageContent::ModelOutput(v) => "<pre>"@ + escape_html(json_text(v)) + "</pre>"@,
        MessageContent::Streaming { partial, .. } => escape_html(partial@),
        MessageContent::Batch(items) => "<span class=\"image-placeholder\">[Batch: "@ + decimal(items@.len())
            + " images]</span>"@,
    }
}

/// The Markdown section of one message.
pub open spec fn message_markdown(m: ChatMessage) -> Seq<char> {
    "\n**"@ + role_label(m.role) + "**: "@ + content_markdown(m.content) + "\n"@ + match m.inference_ms {
        Some(ms) => "\n> Inference time: "@ + decimal(ms as nat) + "ms\n"@,
        None => Seq::empty(),
    } + "\n---\n"@
}

/// The Markdown sections of a list of messages.
pub open spec fn messages_markdown(ms: Seq<ChatMessage>) -> Seq<char>
    decreases ms.len(),
{
    if ms.len() == 0 {
        Seq::empty()
    } else {
        messages_markdown(ms.drop_last()) + message_markdown(ms.last())
    }
}

/// The timing line of a message in HTML.
pub open spec fn timing_html(ms: Option<u64>) -> Seq<char> {
    match ms {
        Some(ms) => "<div class=\"timing\">Inference time: "@ + decimal(ms as nat) + "ms</div>"@,
        None => Seq::empty(),
    }
}

/// The HTML block of one message.
pub open spec fn message_html(m: ChatMessage) -> Seq<char> {
    "<div class=\"message "@ + role_class(m.role) + "\">\n  <div class=\"role\">"@ + role_label(m.role)
        + "</div>\n  <div class=\"content\">"@ + content_html(m.content) + "</div>\n  "@ + timing_html(
        m.inference_ms,
    ) + "\n</div>\n"@
}

/// The HTML blocks of a list of messages.
pub open spec fn messages_html(ms: Seq<ChatMessage>) -> Seq<char>
    decreases ms.len(),
{
    if ms.len() == 0 {
        Seq::empty()
    } else {
        messages_html(ms.drop_last()) + message_html(ms.last())
    }
}

/// The Markdown form of a message's content.
pub fn content_to_markdown(content: &MessageContent) -> (r: String)
    ensures
        r@ == content_markdown(*content),
{
    match content {
        MessageContent::Text(s) => string_of(s.as_str()),
        MessageContent::Image { mime_type, caption, .. } => {
            let mut out = string_of("[Image: ");
            push_str(&mut out, mime_type.as_str());
            push_str(&mut out, "]");
            if let Some(c) = caption {
                push_str(&mut out, " \u{2014} ");
                push_str(&mut out, c.as_str());
            }
            out
        },
        MessageContent::ModelOutput(v) => json_display_text(v),
        MessageContent::Streaming { partial, .. } => string_of(partial.as_str()),
        MessageContent::Batch(items) => {
            let mut out = string_of("[Batch: ");
            push_decimal(&mut out, items.len() as u64);
            push_str(&mut out, " images]");
            out
        },
    }
}

/// The HTML form of a message's content.
pub fn content_to_html(content: &MessageContent) -> (r: String)
    ensures
        r@ == content_html(*content),
{
    match content {
        MessageContent::Text(s) => html_escape(s.as_str()),
        MessageContent::Image { mime_type, caption, .. } => {
            let mut out = string_of("<span class=\"image-placeholder\">[Image: ");
            let m = html_escape(mime_type.as_str());
            push_str(&mut out, m.as_str());
            push_str(&mut out, "]");
            if let Some(c) = caption {
                push_str(&mut out, " &mdash; ");
                let e = html_escape(c.as_str());
                push_str(&mut out, e.as_str());
            }
            push_str(&mut out, "</span>");
            out
        },
        MessageContent::ModelOutput(v) => {
            let json = json_display_text(v);
            let mut out = string_of("<pre>");
            let e = html_escape(json.as_str());
            push_str(&mut out, e.as_str());
            push_str(&mut out, "</pre>");
            out
        },
        MessageContent::Streaming { partial, .. } => html_escape(partial.as_str()),
        MessageContent::Batch(items) => {
            let mut out = string_of("<span class=\"image-placeholder\">[Batch: ");
            push_decimal(&mut out, items.len() as u64);
            push_str(&mut out, " images]</span>");
            out
        },
    }
}

fn push_message_markdown(out: &mut String, msg: &ChatMessage)
    ensures
        final(out)@ == old(out)@ + message_markdown(*msg),
{
    push_str(out, "\n**");
    push_str(out, role_label_str(msg.role));
    push_str(out, "**: ");
    let body = content_to_markdown(&msg.content);
    push_str(out, body.as_str());
    push_str(out, "\n");
    if let Some(ms) = msg.inference_ms {
        push_str(out, "\n> Inference time: ");
        push_decimal(out, ms);
        push_str(out, "ms\n");
    }
    push_str(out, "\n---\n");
}

fn push_message_html(out: &mut String, msg: &ChatMessage)
    ensures
        final(out)@ == old(out)@ + message_html(*msg),
{
    push_str(out, "<div class=\"message ");
    push_str(out, role_class_str(msg.role));
    push_str(out, "\">\n  <div class=\"role\">");
    push_str(out, role_label_str(msg.role));
    push_str(out, "</div>\n  <div class=\"content\">");
    let body = content_to_html(&msg.content);
    push_str(out, body.as_str());
    push_str(out, "</div>\n  ");
    if let Some(ms) = msg.inference_ms {
        push_str(out, "<div class=\"timing\">Inference time: ");
        push_decimal(out, ms);
        push_str(out, "ms</div>");
    }
    push_str(out, "\n</div>\n");
}

/// Renders a chat session as Markdown: a title line, then one section per
/// message with its role, its content, its inference time when known and a
/// rule.
pub fn export_as_markdown(model_name: &str, messages: &[ChatMessage]) -> (r: String)
    ensures
        r@ == "# Chat Session \u{2014} "@ + model_name@ + "\n"@ + messages_markdown(messages@),
{
    let mut out = string_of("# Chat Session \u{2014} ");
    push_str(&mut out, model_name);
    push_str(&mut out, "\n");
    let ghost start = out@;
    let mut i: usize = 0;
    while i < messages.len()
        invariant
            i <= messages@.len(),
            out@ == start + messages_markdown(messages@.subrange(0, i as int)),
        decreases messages.len() - i,
    {
        push_message_markdown(&mut out, &messages[i]);
        proof {
            let p = messages@.subrange(0, i + 1);
            assert(p.drop_last() == messages@.subrange(0, i as int));
            assert(p.last() == messages@[i as int]);
        }
        i = i + 1;
    }
    assert(messages@.subrange(0, messages@.len() as int) == messages@);
    out
}

/// Renders a chat session as a self-contained HTML document with inline CSS;
/// all text taken from the session is escaped.
pub fn export_as_html(model_name: &str, messages: &[ChatMessage]) -> (r: String)
    ensures
        r@ == html_document(model_name@, messages@),
{
    let mut body = String::new();
    let mut i: usize = 0;
    while i < messages.len()
        invariant
            i <= messages@.len(),
            body@ == messages_html(messages@.subrange(0, i as int)),
        decreases messages.len() - i,
    {
        push_message_html(&mut body, &messages[i]);
        proof {
            let p = messages@.subrange(0, i + 1);
            assert(p.drop_last() == messages@.subrange(0, i as int));
            assert(p.last() == messages@[i as int]);
        }
        i = i + 1;
    }
    assert(messages@.subrange(0, messages@.len() as int) == messages@);
    let title = html_escape(model_name);
    let mut out = string_of(HTML_DOC_START);
    push_str(&mut out, title.as_str());
    push_str(&mut out, HTML_DOC_HEADING);
    push_str(&mut out, title.as_str());
    push_str(&mut out, "</h1>\n");
    push_str(&mut out, body.as_str());
    push_str(&mut out, "\n</body>\n</html>");
    out
}


/// The character at `p` is not a `<` that opens a `script` or a `link` tag:
/// a `<` there is followed, within `s`, by two characters other than `sc`
/// and `li`.
pub open spec fn tag_safe_at(s: Seq<char>, p: int) -> bool {
    s[p] == '<' ==> p + 2 < s.len() && !(s[p + 1] == 's' && s[p + 2] == 'c') && !(s[p + 1] == 'l' && s[p + 2]
        == 'i')
}

/// No `<` in `s` opens a `script` or a `link` tag (see `tag_safe_at`).
pub open spec fn tags_safe(s: Seq<char>) -> bool {
    forall|p: int| 0 <= p < s.len() ==> #[trigger] tag_safe_at(s, p)
}

/// `tag_safe_at` holds at `p` and every later position of `s`.
pub open spec fn tags_safe_from(s: Seq<char>, p: int) -> bool
    decreases s.len() - p,
{
    if p < 0 || p >= s.len() {
        true
    } else {
        tag_safe_at(s, p) && tags_safe_from(s, p + 1)
    }
}

proof fn lemma_tags_safe_from(s: Seq<char>, p: int)
    requires
        0 <= p,
        tags_safe_from(s, p),
    ensures
        forall|q: int| p <= q < s.len() ==> #[trigger] tag_safe_at(s, q),
    decreases s.len() - p,
{
    if p < s.len() {
        lemma_tags_safe_from(s, p + 1);
    }
}

/// Text without `<` is safe.
proof fn lemma_no_lt_safe(s: Seq<char>)
    requires
        forall|q: int| 0 <= q < s.len() ==> s[q] != '<',
    ensures
        tags_safe(s),
{
    assert forall|p: int| 0 <= p < s.len() implies #[trigger] tag_safe_at(s, p) by {
        assert(s[p] != '<');
    }
}

/// Joining two safe texts gives a safe text: each `<` keeps the two
/// characters that follow it.
broadcast proof fn lemma_safe_concat(x: Seq<char>, y: Seq<char>)
    requires
        tags_safe(x),
        tags_safe(y),
    ensures
        #[trigger] tags_safe(x + y),
{
    assert forall|p: int| 0 <= p < (x + y).len() implies #[trigger] tag_safe_at(x + y, p) by {
        if p < x.len() {
            assert(tag_safe_at(x, p));
        } else {
            assert(tag_safe_at(y, p - x.len()));
        }
    }
}

proof fn lemma_escaped_safe(s: Seq<char>)
    ensures
        tags_safe(escape_html(s)),
{
    lemma_escaped_has_no_markup(s);
    let e = escape_html(s);
    assert forall|q: int| 0 <= q < e.len() implies e[q] != '<' by {
        assert(e[q] == escape_html(s)[q]);
    }
    lemma_no_lt_safe(e);
}

proof fn lemma_decimal_safe(n: nat)
    ensures
        tags_safe(decimal(n)),
    decreases n,
{
    if n >= 10 {
        lemma_decimal_safe(n / 10);
        let d = decimal(n / 10);
        assert(decimal(n) == d + seq![digit_char(n % 10)]);
        lemma_no_lt_safe(seq![digit_char(n % 10)]);
        lemma_safe_concat(d, seq![digit_char(n % 10)]);
    } else {
        lemma_no_lt_safe(decimal(n));
    }
}

/// The start of the document up to the title is safe.
proof fn lemma_doc_start_safe()
    ensures
        tags_safe(HTML_DOC_START@),
{
    reveal_strlit(r#"<!DOCTYPE html>
<html lang="en">
<head>
<meta charset="utf-8">
<meta name="viewport" content="width=device-width, initial-scale=1">
<title>Chat Session — "#);
    reveal_with_fuel(tags_safe_from, 51);
    let s = HTML_DOC_START@;
    assert(s == (r#"<!DOCTYPE html>
<html lang="en">
<head>
<meta charset="utf-8">
<meta name="viewport" content="width=device-width, initial-scale=1">
<title>Chat Session — "#)@);
    assert(tags_safe_from(s, 154));
    assert(tags_safe_from(s, 104));
    assert(tags_safe_from(s, 54));
    assert(tags_safe_from(s, 4));
    assert(tags_safe_from(s, 0));
    lemma_tags_safe_from(s, 0);
}

/// The style sheet and the head of the page are safe.
proof fn lemma_doc_heading_safe()
    ensures
        tags_safe(HTML_DOC_HEADING@),
{
    reveal_strlit(r#"</title>
<style>
  :root {
    --bg: #18181b;
    --surface: #27272a;
    --surface-alt: #3f3f46;
    --text: #fafafa;
    --text-muted: #a1a1aa;
    --accent: #f59e0b;
    --user-bg: #1e3a5f;
    --model-bg: #292524;
    --border: #3f3f46;
  }
  * { margin: 0; padding: 0; box-sizing: border-box; }
  body {
    font-family: -apple-system, BlinkMacSystemFont, 'Segoe UI', Roboto, sans-serif;
    background: var(--bg);
    color: var(--text);
    line-height: 1.6;
    padding: 2rem;
    max-width: 800px;
    margin: 0 auto;
  }
  h1 {
    color: var(--accent);
    margin-bottom: 1.5rem;
    font-size: 1.5rem;
    border-bottom: 1px solid var(--border);
    padding-bottom: 0.75rem;
  }
  .message {
    margin-bottom: 1rem;
    padding: 1rem;
    border-radius: 8px;
    border: 1px solid var(--border);
  }
  .message.user {
    background: var(--user-bg);
  }
  .message.model {
    background: var(--model-bg);
  }
  .message.system {
    background: var(--surface);
    opacity: 0.7;
  }
  .role {
    font-weight: 600;
    color: var(--accent);
    margin-bottom: 0.25rem;
    font-size: 0.85rem;
    text-transform: uppercase;
    letter-spacing: 0.05em;
  }
  .content {
    white-space: pre-wrap;
    word-wrap: break-word;
  }
  .content pre {
    background: var(--surface-alt);
    padding: 0.75rem;
    border-radius: 4px;
    overflow-x: auto;
    margin: 0.5rem 0;
  }
  .timing {
    margin-top: 0.5rem;
    font-size: 0.8rem;
    color: var(--text-muted);
    font-style: italic;
  }
  .image-placeholder {
    display: inline-block;
    background: var(--surface-alt);
    padding: 0.25rem 0.5rem;
    border-radius: 4px;
    font-size: 0.85rem;
    color: var(--text-muted);
  }
</style>
</head>
<body>
<h1>Chat Session &mdash; "#);
    reveal_with_fuel(tags_safe_from, 51);
    let s = HTML_DOC_HEADING@;
    assert(s == (r#"</title>
<style>
  :root {
    --bg: #18181b;
    --surface: #27272a;
    --surface-alt: #3f3f46;
    --text: #fafafa;
    --text-muted: #a1a1aa;
    --accent: #f59e0b;
    --user-bg: #1e3a5f;
    --model-bg: #292524;
    --border: #3f3f46;
  }
  * { margin: 0; padding: 0; box-sizing: border-box; }
  body {
    font-family: -apple-system, BlinkMacSystemFont, 'Segoe UI', Roboto, sans-serif;
    background: var(--bg);
    color: var(--text);
    line-height: 1.6;
    padding: 2rem;
    max-width: 800px;
    margin: 0 auto;
  }
  h1 {
    color: var(--accent);
    margin-bottom: 1.5rem;
    font-size: 1.5rem;
    border-bottom: 1px solid var(--border);
    padding-bottom: 0.75rem;
  }
  .message {
    margin-bottom: 1rem;
    padding: 1rem;
    border-radius: 8px;
    border: 1px solid var(--border);
  }
  .message.user {
    background: var(--user-bg);
  }
  .message.model {
    background: var(--model-bg);
  }
  .message.system {
    background: var(--surface);
    opacity: 0.7;
  }
  .role {
    font-weight: 600;
    color: var(--accent);
    margin-bottom: 0.25rem;
    font-size: 0.85rem;
    text-transform: uppercase;
    letter-spacing: 0.05em;
  }
  .content {
    white-space: pre-wrap;
    word-wrap: break-word;
  }
  .content pre {
    background: var(--surface-alt);
    padding: 0.75rem;
    border-radius: 4px;
    overflow-x: auto;
    margin: 0.5rem 0;
  }
  .timing {
    margin-top: 0.5rem;
    font-size: 0.8rem;
    color: var(--text-muted);
    font-style: italic;
  }
  .image-placeholder {
    display: inline-block;
    background: var(--surface-alt);
    padding: 0.25rem 0.5rem;
    border-radius: 4px;
    font-size: 0.85rem;
    color: var(--text-muted);
  }
</style>
</head>
<body>
<h1>Chat Session &mdash; "#)@);
    assert(tags_safe_from(s, 1751));
    assert(tags_safe_from(s, 1701));
    assert(tags_safe_from(s, 1651));
    assert(tags_safe_from(s, 1601));
    assert(tags_safe_from(s, 1551));
    assert(tags_safe_from(s, 1501));
    assert(tags_safe_from(s, 1451));
    assert(tags_safe_from(s, 1401));
    assert(tags_safe_from(s, 1351));
    assert(tags_safe_from(s, 1301));
    assert(tags_safe_from(s, 1251));
    assert(tags_safe_from(s, 1201));
    assert(tags_safe_from(s, 1151));
    assert(tags_safe_from(s, 1101));
    assert(tags_safe_from(s, 1051));
    assert(tags_safe_from(s, 1001));
    assert(tags_safe_from(s, 951));
    assert(tags_safe_from(s, 901));
    assert(tags_safe_from(s, 851));
    assert(tags_safe_from(s, 801));
    assert(tags_safe_from(s, 751));
    assert(tags_safe_from(s, 701));
    assert(tags_safe_from(s, 651));
    assert(tags_safe_from(s, 601));
    assert(tags_safe_from(s, 551));
    assert(tags_safe_from(s, 501));
    assert(tags_safe_from(s, 451));
    assert(tags_safe_from(s, 401));
    assert(tags_safe_from(s, 351));
    assert(tags_safe_from(s, 301));
    assert(tags_safe_from(s, 251));
    assert(tags_safe_from(s, 201));
    assert(tags_safe_from(s, 151));
    assert(tags_safe_from(s, 101));
    assert(tags_safe_from(s, 51));
    assert(tags_safe_from(s, 1));
    assert(tags_safe_from(s, 0));
    lemma_tags_safe_from(s, 0);
}

/// The fixed pieces of a message block are safe.
proof fn lemma_message_pieces_safe()
    ensures
        tags_safe("</h1>\n"@),
        tags_safe("\n</body>\n</html>"@),
        tags_safe("<div class=\"message "@),
        tags_safe("\">\n  <div class=\"role\">"@),
        tags_safe("</div>\n  <div class=\"content\">"@),
        tags_safe("</div>\n  "@),
        tags_safe("\n</div>\n"@),
        tags_safe("<div class=\"timing\">Inference time: "@),
        tags_safe("ms</div>"@),
        tags_safe("<span class=\"image-placeholder\">[Image: "@),
        tags_safe("]"@),
        tags_safe(" &mdash; "@),
        tags_safe("</span>"@),
        tags_safe("<pre>"@),
        tags_safe("</pre>"@),
        tags_safe("<span class=\"image-placeholder\">[Batch: "@),
        tags_safe(" images]</span>"@),
        tags_safe("User"@),
        tags_safe("Model"@),
        tags_safe("System"@),
        tags_safe("user"@),
        tags_safe("model"@),
        tags_safe("system"@),
{
    reveal_strlit("</h1>\n");
    reveal_strlit("\n</body>\n</html>");
    reveal_strlit("<div class=\"message ");
    reveal_strlit("\">\n  <div class=\"role\">");
    reveal_strlit("</div>\n  <div class=\"content\">");
    reveal_strlit("</div>\n  ");
    reveal_strlit("\n</div>\n");
    reveal_strlit("<div class=\"timing\">Inference time: ");
    reveal_strlit("ms</div>");
    reveal_strlit("<span class=\"image-placeholder\">[Image: ");
    reveal_strlit("]");
    reveal_strlit(" &mdash; ");
    reveal_strlit("</span>");
    reveal_strlit("<pre>");
    reveal_strlit("</pre>");
    reveal_strlit("<span class=\"image-placeholder\">[Batch: ");
    reveal_strlit(" images]</span>");
    reveal_strlit("User");
    reveal_strlit("Model");
    reveal_strlit("System");
    reveal_strlit("user");
    reveal_strlit("model");
    reveal_strlit("system");
    reveal_with_fuel(tags_safe_from, 51);
    assert(tags_safe_from("</h1>\n"@, 0));
    lemma_tags_safe_from("</h1>\n"@, 0);
    assert(tags_safe_from("\n</body>\n</html>"@, 0));
    lemma_tags_safe_from("\n</body>\n</html>"@, 0);
    assert(tags_safe_from("<div class=\"message "@, 0));
    lemma_tags_safe_from("<div class=\"message "@, 0);
    assert(tags_safe_from("\">\n  <div class=\"role\">"@, 0));
    lemma_tags_safe_from("\">\n  <div class=\"role\">"@, 0);
    assert(tags_safe_from("</div>\n  <div class=\"content\">"@, 0));
    lemma_tags_safe_from("</div>\n  <div class=\"content\">"@, 0);
    assert(tags_safe_from("</div>\n  "@, 0));
    lemma_tags_safe_from("</div>\n  "@, 0);
    assert(tags_safe_from("\n</div>\n"@, 0));
    lemma_tags_safe_from("\n</div>\n"@, 0);
    assert(tags_safe_from("<div class=\"timing\">Inference time: "@, 0));
    lemma_tags_safe_from("<div class=\"timing\">Inference time: "@, 0);
    assert(tags_safe_from("ms</div>"@, 0));
    lemma_tags_safe_from("ms</div>"@, 0);
    assert(tags_safe_from("<span class=\"image-placeholder\">[Image: "@, 0));
    lemma_tags_safe_from("<span class=\"image-placeholder\">[Image: "@, 0);
    assert(tags_safe_from("]"@, 0));
    lemma_tags_safe_from("]"@, 0);
    assert(tags_safe_from(" &mdash; "@, 0));
    lemma_tags_safe_from(" &mdash; "@, 0);
    assert(tags_safe_from("</span>"@, 0));
    lemma_tags_safe_from("</span>"@, 0);
    assert(tags_safe_from("<pre>"@, 0));
    lemma_tags_safe_from("<pre>"@, 0);
    assert(tags_safe_from("</pre>"@, 0));
    lemma_tags_safe_from("</pre>"@, 0);
    assert(tags_safe_from("<span class=\"image-placeholder\">[Batch: "@, 0));
    lemma_tags_safe_from("<span class=\"image-placeholder\">[Batch: "@, 0);
    assert(tags_safe_from(" images]</span>"@, 0));
    lemma_tags_safe_from(" images]</span>"@, 0);
    assert(tags_safe_from("User"@, 0));
    lemma_tags_safe_from("User"@, 0);
    assert(tags_safe_from("Model"@, 0));
    lemma_tags_safe_from("Model"@, 0);
    assert(tags_safe_from("System"@, 0));
    lemma_tags_safe_from("System"@, 0);
    assert(tags_safe_from("user"@, 0));
    lemma_tags_safe_from("user"@, 0);
    assert(tags_safe_from("model"@, 0));
    lemma_tags_safe_from("model"@, 0);
    assert(tags_safe_from("system"@, 0));
    lemma_tags_safe_from("system"@, 0);
}

proof fn lemma_content_html_safe(c: MessageContent)
    ensures
        tags_safe(content_html(c)),
{
    broadcast use lemma_safe_concat;
    lemma_message_pieces_safe();
    match c {
        MessageContent::Text(s) => lemma_escaped_safe(s@),
        MessageContent::Image { mime_type, caption, .. } => {
            lemma_escaped_safe(mime_type@);
            match caption {
                Some(cap) => lemma_escaped_safe(cap@),
                None => lemma_no_lt_safe(Seq::<char>::empty()),
            }
        },
        MessageContent::ModelOutput(v) => lemma_escaped_safe(json_text(v)),
        MessageContent::Streaming { partial, .. } => lemma_escaped_safe(partial@),
        MessageContent::Batch(items) => lemma_decimal_safe(items@.len()),
    }
}

proof fn lemma_message_html_safe(m: ChatMessage)
    ensures
        tags_safe(message_html(m)),
{
    broadcast use lemma_safe_concat;
    lemma_message_pieces_safe();
    lemma_content_html_safe(m.content);
    match m.inference_ms {
        Some(ms) => lemma_decimal_safe(ms as nat),
        None => lemma_no_lt_safe(Seq::<char>::empty()),
    }
}

proof fn lemma_messages_html_safe(ms: Seq<ChatMessage>)
    ensures
        tags_safe(messages_html(ms)),
    decreases ms.len(),
{
    if ms.len() == 0 {
        lemma_no_lt_safe(Seq::<char>::empty());
    } else {
        lemma_messages_html_safe(ms.drop_last());
        lemma_message_html_safe(ms.last());
        lemma_safe_concat(messages_html(ms.drop_last()), message_html(ms.last()));
    }
}

/// The HTML document of a chat with a model named `model_name`.
pub open spec fn html_document(model_name: Seq<char>, messages: Seq<ChatMessage>) -> Seq<char> {
    HTML_DOC_START@ + escape_html(model_name) + HTML_DOC_HEADING@ + escape_html(model_name) + "</h1>\n"@
        + messages_html(messages) + "\n</body>\n</html>"@
}

/// Whatever the model name and the messages hold, the exported page never
/// holds a `<script` or a `<link` tag: everything they hold goes through
/// `escape_html`, which leaves no `<`, and the page's own markup has none.
pub proof fn law_html_export_has_no_script_or_link(model_name: Seq<char>, messages: Seq<ChatMessage>)
    ensures
        forall|p: int|
            0 <= p && p + 7 <= html_document(model_name, messages).len() ==> #[trigger] html_document(
                model_name,
                messages,
            ).subrange(p, p + 7) != "<script"@,
        forall|p: int|
            0 <= p && p + 5 <= html_document(model_name, messages).len() ==> #[trigger] html_document(
                model_name,
                messages,
            ).subrange(p, p + 5) != "<link"@,
{
    broadcast use lemma_safe_concat;
    lemma_doc_start_safe();
    lemma_doc_heading_safe();
    lemma_escaped_safe(model_name);
    lemma_message_pieces_safe();
    lemma_messages_html_safe(messages);
    let doc = html_document(model_name, messages);
    assert(tags_safe(doc));
    reveal_strlit("<script");
    reveal_strlit("<link");
    assert forall|p: int| 0 <= p && p + 7 <= doc.len() implies #[trigger] doc.subrange(p, p + 7) != "<script"@ by {
        if doc.subrange(p, p + 7) == "<script"@ {
            assert(doc.subrange(p, p + 7)[0] == '<');
            assert(tag_safe_at(doc, p));
            assert(doc[p + 1] == doc.subrange(p, p + 7)[1]);
            assert(doc[p + 2] == doc.subrange(p, p + 7)[2]);
        }
    }
    assert forall|p: int| 0 <= p && p + 5 <= doc.len() implies #[trigger] doc.subrange(p, p + 5) != "<link"@ by {
        if doc.subrange(p, p + 5) == "<link"@ {
            assert(doc.subrange(p, p + 5)[0] == '<');
            assert(tag_safe_at(doc, p));
            assert(doc[p + 1] == doc.subrange(p, p + 5)[1]);
            assert(doc[p + 2] == doc.subrange(p, p + 5)[2]);
        }
    }
}

} // verus!
