use vstd::prelude::*;
use vstd::string::{StringExecFns, StringSliceAdditionalSpecFns};

verus! {

/// The largest payload, in bytes, that is ever attached to a message.
pub const MAX_FILE_SIZE: usize = 24_000_000;

/// Replies to a chat message shorter than this many bytes are sent inline.
pub const MESSAGE_INLINE_LIMIT: usize = 1900;

/// Query results shorter than this many bytes are sent inline in an embed.
pub const EMBED_INLINE_LIMIT: usize = 4000;

/// How a rendered result of `len` bytes is delivered.
#[derive(Clone, Copy, Debug, PartialEq, Eq, Structural)]
pub enum Delivery {
    /// In the message itself, as a code block.
    Inline,
    /// As a file of `len` bytes; `truncated` when the result was cut to fit.
    Attachment { len: usize, truncated: bool },
}

/// The delivery of a result of `len` bytes under the inline limit `threshold`.
pub open spec fn delivery_of(len: usize, threshold: usize) -> Delivery {
    if len < threshold {
        Delivery::Inline
    } else if len > MAX_FILE_SIZE {
        Delivery::Attachment { len: MAX_FILE_SIZE, truncated: true }
    } else {
        Delivery::Attachment { len, truncated: false }
    }
}

/// Chooses how a result of `len` bytes is delivered: inline below
/// `threshold`; otherwise attached, cut to `MAX_FILE_SIZE` bytes and flagged
/// when it is longer.
pub fn plan_delivery(len: usize, threshold: usize) -> (d: Delivery)
    requires
        threshold <= MAX_FILE_SIZE,
    ensures
        d == delivery_of(len, threshold),
{
    if len < threshold {
        Delivery::Inline
    } else if len > MAX_FILE_SIZE {
        Delivery::Attachment { len: MAX_FILE_SIZE, truncated: true }
    } else {
        Delivery::Attachment { len, truncated: false }
    }
}

/// A result below the inline limit is never attached; one over the ceiling
/// is cut to exactly the ceiling and flagged; one from the limit up to the
/// ceiling is attached whole.
pub proof fn delivery_by_size(len: usize, threshold: usize)
    requires
        threshold <= MAX_FILE_SIZE,
    ensures
        len < threshold ==> delivery_of(len, threshold) == Delivery::Inline,
        len > MAX_FILE_SIZE ==> delivery_of(len, threshold) == (Delivery::Attachment {
            len: MAX_FILE_SIZE,
            truncated: true,
        }),
        threshold <= len <= MAX_FILE_SIZE ==> delivery_of(len, threshold) == (Delivery::Attachment {
            len,
            truncated: false,
        }),
{
}

/// The language tag of a rendering, for highlighting and file names.
pub open spec fn label_of(json: bool) -> Seq<char> {
    if json {
        "json"@
    } else {
        "sql"@
    }
}

/// The language tag for structured (`json`) or native rendering.
pub fn format_label(json: bool) -> (r: &'static str)
    ensures
        r@ == label_of(json),
{
    if json {
        "json"
    } else {
        "sql"
    }
}

/// `reply` as a code block tagged with its language.
pub open spec fn code_block_of(reply: Seq<char>, json: bool) -> Seq<char> {
    "```"@ + label_of(json) + "\n"@ + reply + "\n```"@
}

/// Wraps `reply` in a code block tagged with its language.
pub fn code_block(reply: &str, json: bool) -> (r: String)
    ensures
        r@ == code_block_of(reply@, json),
{
    let mut s = String::from_str("```");
    s.append(format_label(json));
    s.append("\n");
    s.append(reply);
    s.append("\n```");
    s
}

/// The name of the file that carries a long result.
pub fn response_file_name(json: bool) -> (r: String)
    ensures
        r@ == "response."@ + label_of(json),
{
    let mut s = String::from_str("response.");
    s.append(format_label(json));
    s
}

/// The first `n` bytes of `data`.
pub fn prefix_bytes(data: &[u8], n: usize) -> (r: Vec<u8>)
    requires
        n <= data@.len(),
    ensures
        r@ == data@.take(n as int),
{
    let mut r: Vec<u8> = Vec::new();
    let mut i: usize = 0;
    while i < n
        invariant
            i <= n,
            n <= data@.len(),
            r@ == data@.take(i as int),
        decreases n - i,
    {
        r.push(data[i]);
        i = i + 1;
        proof {
            assert(data@.take(i as int) == data@.take(i - 1).push(data@[i - 1]));
        }
    }
    r
}

/// What is sent for a rendered result.
#[derive(Debug)]
pub enum Outgoing {
    /// A message holding the result as a code block.
    Inline(String),
    /// A file attachment; `truncated` when the result was cut to fit.
    Attachment { name: String, data: Vec<u8>, truncated: bool },
}

/// Prepares the delivery of `reply`, rendered structured when `json`,
/// under the inline limit `threshold`.
pub fn prepare_reply(reply: &str, json: bool, threshold: usize) -> (o: Outgoing)
    requires
        threshold <= MAX_FILE_SIZE,
    ensures
        match delivery_of(reply.spec_bytes().len() as usize, threshold) {
            Delivery::Inline => o matches Outgoing::Inline(t) && t@ == code_block_of(reply@, json),
            Delivery::Attachment { len, truncated } => o matches Outgoing::Attachment { name, data, truncated: t }
                && name@ == "response."@ + label_of(json) && data@ == reply.spec_bytes().take(len as int)
                && t == truncated,
        },
{
    match plan_delivery(reply.len(), threshold) {
        Delivery::Inline => Outgoing::Inline(code_block(reply, json)),
        Delivery::Attachment { len, truncated } => Outgoing::Attachment {
            name: response_file_name(json),
            data: prefix_bytes(reply.as_bytes(), len),
            truncated,
        },
    }
}

} // verus!
