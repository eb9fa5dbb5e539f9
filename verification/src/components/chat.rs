//! The chat view: how each message is shown and what its copy button copies.

use vstd::prelude::*;

use crate::json::{json_display_text, json_text};
use crate::server::interpreter::join_texts;
use crate::text::{decimal, push_decimal, push_str, string_of};
use crate::types::{BatchItem, MessageContent, MessageRole};

verus! {

/// The line of one batch item in the copied text.
pub open spec fn batch_item_copy(i: nat, item: BatchItem) -> Seq<char> {
    "Image "@ + decimal(i + 1) + ": "@ + json_text(item.output)
}

/// The lines of the batch items.
pub open spec fn batch_copy_lines(items: Seq<BatchItem>) -> Seq<Seq<char>> {
    Seq::new(items.len(), |i: int| batch_item_copy(i as nat, items[i]))
}

/// What the copy button of a message copies.
pub open spec fn copy_text(c: MessageContent) -> Seq<char> {
    match c {
        MessageContent::Text(s) => s@,
        MessageContent::Image { caption, .. } => match caption {
            Some(cap) => cap@,
            None => Seq::empty(),
        },
        MessageContent::ModelOutput(v) => json_text(v),
        MessageContent::Streaming { partial, .. } => partial@,
        MessageContent::Batch(items) => join_texts(batch_copy_lines(items@), "\n\n"@),
    }
}

/// What the copy button of a message copies: its text, the caption of an
/// image, the JSON of an output, or one numbered JSON block per batch item.
pub fn copyable_text(content: &MessageContent) -> (r: String)
    ensures
        r@ == copy_text(*content),
{
    match content {
        MessageContent::Text(s) => string_of(s.as_str()),
        MessageContent::Image { caption, .. } => match caption {
            Some(c) => string_of(c.as_str()),
            None => String::new(),
        },
        MessageContent::ModelOutput(v) => json_display_text(v),
        MessageContent::Streaming { partial, .. } => string_of(partial.as_str()),
        MessageContent::Batch(items) => {
            let mut out = String::new();
            let mut i: usize = 0;
            while i < items.len()
                invariant
                    i <= items@.len(),
                    out@ == join_texts(batch_copy_lines(items@.subrange(0, i as int)), "\n\n"@),
                decreases items.len() - i,
            {
                if i > 0 {
                    push_str(&mut out, "\n\n");
                }
                push_str(&mut out, "Image ");
                push_decimal(&mut out, i as u64 + 1);
                push_str(&mut out, ": ");
                let json = json_display_text(&items[i].output);
                push_str(&mut out, json.as_str());
                proof {
                    let p = batch_copy_lines(items@.subrange(0, i + 1));
                    assert(p.drop_last() =~= batch_copy_lines(items@.subrange(0, i as int)));
                    assert(p.last() == batch_item_copy(i as nat, items@[i as int]));
                    if i == 0 {
                        assert(batch_copy_lines(items@.subrange(0, 0)) =~= Seq::<Seq<char>>::empty());
                    }
                }
                i = i + 1;
            }
            assert(items@.subrange(0, items@.len() as int) == items@);
            out
        },
    }
}

/// The summed latency of the batch items that report one, over the first `k`.
pub open spec fn batch_total(items: Seq<BatchItem>, k: int) -> nat
    decreases k,
{
    if k <= 0 {
        0
    } else {
        batch_total(items, k - 1) + match items[k - 1].inference_ms {
            Some(ms) => ms as nat,
            None => 0,
        }
    }
}

proof fn lemma_batch_total_grows(items: Seq<BatchItem>, k: int, m: int)
    requires
        0 <= k <= m,
    ensures
        batch_total(items, k) <= batch_total(items, m),
    decreases m - k,
{
    if m > k {
        lemma_batch_total_grows(items, k, m - 1);
    }
}

/// The summed latency of a batch.
pub fn batch_total_ms(items: &[BatchItem]) -> (r: u64)
    requires
        batch_total(items@, items@.len() as int) <= u64::MAX,
    ensures
        r == batch_total(items@, items@.len() as int),
{
    let mut total: u64 = 0;
    let mut i: usize = 0;
    while i < items.len()
        invariant
            i <= items@.len(),
            batch_total(items@, items@.len() as int) <= u64::MAX,
            total == batch_total(items@, i as int),
        decreases items.len() - i,
    {
        proof {
            lemma_batch_total_grows(items@, i + 1, items@.len() as int);
        }
        match items[i].inference_ms {
            Some(ms) => total = total + ms,
            None => {},
        }
        i = i + 1;
    }
    total
}

/// How a message is drawn.
#[derive(Clone, Copy, Debug, PartialEq, Eq, Structural)]
pub enum BubbleKind {
    UserImage,
    User,
    Model,
}

/// An image from the user gets an image bubble; other user messages a text
/// bubble; model and system messages a model bubble.
pub fn bubble_kind(role: MessageRole, content: &MessageContent) -> (r: BubbleKind)
    ensures
        r == (match role {
            MessageRole::User => if content is Image { BubbleKind::UserImage } else { BubbleKind::User },
            _ => BubbleKind::Model,
        }),
{
    let is_image = match content {
        MessageContent::Image { .. } => true,
        _ => false,
    };
    match role {
        MessageRole::User => if is_image {
            BubbleKind::UserImage
        } else {
            BubbleKind::User
        },
        _ => BubbleKind::Model,
    }
}

/// The data URL of an inline image.
pub fn data_url(mime_type: &str, base64: &str) -> (r: String)
    ensures
        r@ == "data:"@ + mime_type@ + ";base64,"@ + base64@,
{
    let mut out = string_of("data:");
    push_str(&mut out, mime_type);
    push_str(&mut out, ";base64,");
    push_str(&mut out, base64);
    out
}

/// The heading of a batch reply.
pub fn batch_heading(count: usize) -> (r: String)
    ensures
        r@ == "Batch results \u{2014} "@ + decimal(count as nat) + " images"@,
{
    let mut out = string_of("Batch results \u{2014} ");
    push_decimal(&mut out, count as u64);
    push_str(&mut out, " images");
    out
}

} // verus!
