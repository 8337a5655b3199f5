//! Message segments of the chat protocol.

use vstd::prelude::*;
use vstd::string::StringExecFns;

verus! {

/// One message segment.
#[derive(Debug)]
pub enum Message {
    Text { data: Text },
    Face { data: Face },
    Image { data: Image },
    Reply { data: Reply },
    Forward { data: ForwardMessage },
    Node { data: ForwardMessageNode },
    Verbatim,
}

/// A plain text segment.
#[derive(Debug, Clone)]
pub struct Text {
    pub text: String,
}

/// A built-in face by id.
#[derive(Debug, Clone)]
pub struct Face {
    pub id: u32,
}

/// Whether an image flashes once or shows normally.
#[derive(Debug, Clone, Copy, PartialEq, Eq, Structural)]
pub enum ImageType {
    Flash,
    Normal,
}

/// An image segment.
#[derive(Debug, Clone)]
pub struct Image {
    pub file: String,
    pub image_type: ImageType,
    pub url: Option<String>,
    pub cache: bool,
    pub proxy: bool,
    pub timeout: Option<u32>,
}

/// A reply reference to an earlier message.
#[derive(Debug, Clone)]
pub struct Reply {
    pub id: i32,
}

/// A forwarded-message reference.
#[derive(Debug, Clone)]
pub struct ForwardMessage {
    pub id: i32,
}

/// One node of a forwarded conversation.
#[derive(Debug)]
pub enum ForwardMessageNode {
    Node { id: i32 },
    Custom { user_id: u32, nickname: String, content: Vec<Message> },
}

/// The plain text a segment shows: its text for a text segment, nothing for
/// anything else.
pub open spec fn spec_stringify_one(m: Message) -> Seq<char> {
    match m {
        Message::Text { data } => data.text@,
        _ => ""@,
    }
}

impl Message {
    /// The plain text of this segment.
    pub fn stringify(&self) -> (r: &str)
        ensures
            r@ == spec_stringify_one(*self),
    {
        match self {
            Message::Text { data } => data.text.as_str(),
            _ => "",
        }
    }
}

/// The plain text of a message: its segments' texts joined by single
/// spaces.
pub open spec fn spec_stringify(ms: Seq<Message>) -> Seq<char>
    decreases ms.len(),
{
    if ms.len() == 0 {
        Seq::empty()
    } else if ms.len() == 1 {
        spec_stringify_one(ms[0])
    } else {
        spec_stringify(ms.drop_last()) + " "@ + spec_stringify_one(ms.last())
    }
}

/// Joins the plain texts of a message's segments with single spaces.
pub fn stringify(msg: &[Message]) -> (r: String)
    ensures
        r@ == spec_stringify(msg@),
{
    let n = msg.len();
    let mut r = String::new();
    let mut i: usize = 0;
    while i < n
        invariant
            i <= n,
            n == msg@.len(),
            r@ == spec_stringify(msg@.take(i as int)),
        decreases n - i,
    {
        proof {
            assert(msg@.take(i + 1).drop_last() =~= msg@.take(i as int));
            assert(msg@.take(i + 1).last() == msg@[i as int]);
        }
        if i > 0 {
            r.append(" ");
        }
        r.append(msg[i].stringify());
        i = i + 1;
    }
    proof {
        assert(msg@.take(n as int) =~= msg@);
    }
    r
}

} // verus!
