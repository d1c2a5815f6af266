//! Chat message model shared by the runtime: roles, message parts and messages.
use vstd::prelude::*;

verus! {

/// Author of a chat message.
#[derive(Debug, Clone, Copy, PartialEq, Eq, Structural)]
pub enum MessageRole {
    System,
    User,
    Assistant,
}

/// One part of a chat message: plain text, an image or a file attachment.
#[derive(Debug)]
pub enum MessagePart {
    Text { text: String },
    Image { mime_type: String, data: String },
    File { name: String, mime_type: String, data: String },
}

/// Abstract value of a message part.
pub enum PartView {
    Text { text: Seq<char> },
    Image { mime_type: Seq<char>, data: Seq<char> },
    File { name: Seq<char>, mime_type: Seq<char>, data: Seq<char> },
}

impl View for MessagePart {
    type V = PartView;

    open spec fn view(&self) -> PartView {
        match self {
            MessagePart::Text { text } => PartView::Text { text: text@ },
            MessagePart::Image { mime_type, data } => PartView::Image { mime_type: mime_type@, data: data@ },
            MessagePart::File { name, mime_type, data } => PartView::File {
                name: name@,
                mime_type: mime_type@,
                data: data@,
            },
        }
    }
}

impl Clone for MessagePart {
    fn clone(&self) -> (r: Self)
        ensures
            r == *self,
            r@ == self@,
    {
        match self {
            MessagePart::Text { text } => MessagePart::Text { text: text.clone() },
            MessagePart::Image { mime_type, data } => MessagePart::Image {
                mime_type: mime_type.clone(),
                data: data.clone(),
            },
            MessagePart::File { name, mime_type, data } => MessagePart::File {
                name: name.clone(),
                mime_type: mime_type.clone(),
                data: data.clone(),
            },
        }
    }
}

impl MessagePart {
    /// A text part.
    pub fn text(text: &str) -> (r: MessagePart)
        ensures
            r matches MessagePart::Text { text: t } && t@ == text@,
    {
        MessagePart::Text { text: text.to_owned() }
    }

    /// A file attachment part.
    pub fn file(name: &str, mime_type: &str, data: &str) -> (r: MessagePart)
        ensures
            r matches MessagePart::File { name: n, mime_type: m, data: d } && n@ == name@ && m@
                == mime_type@ && d@ == data@,
    {
        MessagePart::File { name: name.to_owned(), mime_type: mime_type.to_owned(), data: data.to_owned() }
    }

    /// Whether this part is an attachment (anything but text).
    pub fn is_attachment(&self) -> (r: bool)
        ensures
            r == !(self is Text),
    {
        !matches!(self, MessagePart::Text { .. })
    }
}

/// Abstract value of a chat message.
pub struct ChatMessageView {
    pub role: MessageRole,
    pub parts: Seq<PartView>,
}

/// A chat message: a role and an ordered list of parts.
#[derive(Debug)]
pub struct ChatMessage {
    pub role: MessageRole,
    pub parts: Vec<MessagePart>,
}

impl View for ChatMessage {
    type V = ChatMessageView;

    open spec fn view(&self) -> ChatMessageView {
        ChatMessageView { role: self.role, parts: parts_view(self.parts@) }
    }
}

/// The views of a sequence of parts.
pub open spec fn parts_view(s: Seq<MessagePart>) -> Seq<PartView> {
    s.map_values(|p: MessagePart| p@)
}

/// The views of a sequence of messages.
pub open spec fn msgs_view(s: Seq<ChatMessage>) -> Seq<ChatMessageView> {
    s.map_values(|m: ChatMessage| m@)
}

/// Text carried by a sequence of parts: the texts of the text parts, concatenated in order.
pub open spec fn parts_text(parts: Seq<PartView>) -> Seq<char>
    decreases parts.len(),
{
    if parts.len() == 0 {
        Seq::empty()
    } else {
        parts_text(parts.drop_last()) + match parts.last() {
            PartView::Text { text } => text,
            _ => Seq::empty(),
        }
    }
}

/// Whether any part is an attachment.
pub open spec fn parts_have_attachment(parts: Seq<PartView>) -> bool {
    exists|i: int| 0 <= i < parts.len() && !(parts[i] is Text)
}

impl ChatMessageView {
    /// The text of the message: its text parts joined.
    pub open spec fn content(self) -> Seq<char> {
        parts_text(self.parts)
    }

    /// Whether the message is a system message.
    pub open spec fn is_system(self) -> bool {
        self.role == MessageRole::System
    }
}

/// Clone a vector of parts, keeping every part.
fn clone_parts(parts: &Vec<MessagePart>) -> (r: Vec<MessagePart>)
    ensures
        r@ == parts@,
{
    let mut r: Vec<MessagePart> = Vec::new();
    let mut i: usize = 0;
    while i < parts.len()
        invariant
            i <= parts.len(),
            r@ == parts@.take(i as int),
        decreases parts.len() - i,
    {
        r.push(parts[i].clone());
        proof {
            assert(parts@.take(i + 1) =~= parts@.take(i as int).push(parts@[i as int]));
        }
        i = i + 1;
    }
    proof {
        assert(parts@.take(i as int) =~= parts@);
    }
    r
}

impl Clone for ChatMessage {
    fn clone(&self) -> (r: Self)
        ensures
            r@ == self@,
    {
        ChatMessage { role: self.role, parts: clone_parts(&self.parts) }
    }
}

impl ChatMessage {
    /// A message with a single text part.
    pub fn new(role: MessageRole, text: &str) -> (r: ChatMessage)
        ensures
            r.role == role,
            r.parts@.len() == 1,
            r@.parts == seq![PartView::Text { text: text@ }],
            r@.content() == text@,
    {
        let mut parts: Vec<MessagePart> = Vec::new();
        parts.push(MessagePart::text(text));
        let r = ChatMessage { role, parts };
        proof {
            assert(r@.parts =~= seq![PartView::Text { text: text@ }]);
            assert(r@.parts.drop_last() =~= Seq::<PartView>::empty());
            assert(Seq::<char>::empty() + text@ =~= text@);
            assert(parts_text(r@.parts.drop_last()) =~= Seq::<char>::empty());
            assert(r@.parts.last() == PartView::Text { text: text@ });
        }
        r
    }

    /// A message made of the given parts.
    pub fn with_parts(role: MessageRole, parts: Vec<MessagePart>) -> (r: ChatMessage)
        ensures
            r.role == role,
            r.parts@ == parts@,
            r@.parts == parts_view(parts@),
    {
        ChatMessage { role, parts }
    }

    /// The text of the message: the text parts concatenated in order.
    pub fn content(&self) -> (r: String)
        ensures
            r@ == self@.content(),
    {
        let mut r = String::new();
        let mut i: usize = 0;
        while i < self.parts.len()
            invariant
                i <= self.parts.len(),
                r@ == parts_text(self@.parts.take(i as int)),
            decreases self.parts.len() - i,
        {
            proof {
                assert(self@.parts.take(i + 1).drop_last() =~= self@.parts.take(i as int));
                assert(self@.parts[i as int] == self.parts@[i as int]@);
            }
            match &self.parts[i] {
                MessagePart::Text { text } => {
                    r.append(text.as_str());
                },
                _ => {},
            }
            i = i + 1;
        }
        proof {
            assert(self@.parts.take(i as int) =~= self@.parts);
        }
        r
    }

    /// Whether the message carries any attachment.
    pub fn has_attachments(&self) -> (r: bool)
        ensures
            r == parts_have_attachment(self@.parts),
    {
        let mut i: usize = 0;
        while i < self.parts.len()
            invariant
                i <= self.parts.len(),
                forall|j: int| 0 <= j < i ==> self@.parts[j] is Text,
            decreases self.parts.len() - i,
        {
            proof {
                assert(self@.parts[i as int] == self.parts@[i as int]@);
            }
            if self.parts[i].is_attachment() {
                return true;
            }
            i = i + 1;
        }
        false
    }

    /// Whether the message was written by the system.
    pub fn is_system(&self) -> (r: bool)
        ensures
            r == self@.is_system(),
    {
        self.role == MessageRole::System
    }
}

} // verus!
