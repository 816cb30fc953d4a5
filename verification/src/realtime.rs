//! Outbound messages of the frameless realtime protocol: context appends,
//! session updates and the byte-bounded chunking of appended context.

use vstd::prelude::*;
use vstd::utf8::*;
use vstd::string::*;
use crate::json::{JsonValue, JsonView, json_array, json_object, json_str, items_view, members_view, push_item, push_member};
use crate::text::opt_view;

verus! {

broadcast use vstd::utf8::encode_utf8_valid_utf8, vstd::utf8::encode_utf8_decode_utf8;

/// Largest number of UTF-8 bytes that one context-append chunk may carry.
pub const CONTEXT_APPEND_MAX_BYTES: usize = 500;

/// Number of bytes of the UTF-8 encoding of `s`.
pub open spec fn utf8_len(s: Seq<char>) -> int {
    encode_utf8(s).len() as int
}

/// The concatenation of `parts`, in order.
pub open spec fn joined(parts: Seq<Seq<char>>) -> Seq<char>
    decreases parts.len(),
{
    if parts.len() == 0 {
        Seq::empty()
    } else {
        joined(parts.drop_last()) + parts.last()
    }
}

/// The character views of `v`.
pub open spec fn string_views(v: Seq<String>) -> Seq<Seq<char>> {
    v.map_values(|s: String| s@)
}

/// What the chunking of `text` into context-append messages returns, stated
/// over the character views of the chunks: a single chunk when the text fits,
/// otherwise non-empty chunks that concatenate to the text, each at most
/// `CONTEXT_APPEND_MAX_BYTES` bytes long and each (but the last) as long as it
/// can be without splitting a character.
pub open spec fn is_context_append_chunking(text: Seq<char>, chunks: Seq<Seq<char>>) -> bool {
    if utf8_len(text) <= CONTEXT_APPEND_MAX_BYTES {
        chunks == seq![text]
    } else {
        &&& joined(chunks) == text
        &&& forall|i: int| 0 <= i < chunks.len() ==>
            0 < #[trigger] utf8_len(chunks[i]) <= CONTEXT_APPEND_MAX_BYTES
        &&& forall|i: int| 0 <= i < chunks.len() - 1 ==>
            #[trigger] utf8_len(chunks[i]) + utf8_len(seq![chunks[i + 1][0]])
                > CONTEXT_APPEND_MAX_BYTES
    }
}

proof fn lemma_boundary_after_first_scalar(b: Seq<u8>)
    requires
        valid_utf8(b),
        b.len() > 0,
    ensures
        1 <= length_of_first_scalar(b) <= 4,
        length_of_first_scalar(b) <= b.len(),
        is_char_boundary(b, length_of_first_scalar(b)),
{
    reveal_with_fuel(is_char_boundary, 2);
    vstd::utf8::is_char_boundary_start_end_of_seq(pop_first_scalar(b));
}

proof fn lemma_utf8_len_single(s: Seq<char>)
    requires
        s.len() > 0,
    ensures
        utf8_len(seq![s[0]]) == length_of_first_scalar(encode_utf8(s)),
{
    vstd::utf8::encode_utf8_first_scalar(s);
    let one = seq![s[0]];
    assert(one.drop_first() =~= Seq::<char>::empty());
    assert(encode_utf8(one) =~= encode_scalar(s[0] as u32) + encode_utf8(Seq::<char>::empty()));
}

/// Splits `text` into chunks of at most `CONTEXT_APPEND_MAX_BYTES` bytes,
/// each ending on a character boundary.
pub fn context_append_chunks(text: &str) -> (chunks: Vec<String>)
    requires
        utf8_len(text@) <= usize::MAX,
    ensures
        is_context_append_chunking(text@, string_views(chunks@)),
{
    if text.len() <= CONTEXT_APPEND_MAX_BYTES {
        let mut one: Vec<String> = Vec::new();
        one.push(text.to_owned());
        proof {
            assert(string_views(one@) =~= seq![text@]);
        }
        return one;
    }
    let mut chunks: Vec<String> = Vec::new();
    let mut rest: &str = text;
    while rest.len() > 0
        invariant
            utf8_len(text@) > CONTEXT_APPEND_MAX_BYTES,
            utf8_len(rest@) <= usize::MAX,
            joined(string_views(chunks@)) + rest@ == text@,
            forall|i: int| 0 <= i < chunks@.len() ==>
                0 < #[trigger] utf8_len(chunks@[i]@) <= CONTEXT_APPEND_MAX_BYTES,
            forall|i: int| 0 <= i < chunks@.len() - 1 ==>
                #[trigger] utf8_len(chunks@[i]@) + utf8_len(seq![chunks@[i + 1]@[0]])
                    > CONTEXT_APPEND_MAX_BYTES,
            chunks@.len() > 0 && rest@.len() > 0 ==>
                utf8_len(chunks@[chunks@.len() - 1]@) + utf8_len(seq![rest@[0]])
                    > CONTEXT_APPEND_MAX_BYTES,
        decreases rest@.len(),
    {
        let ghost b = rest.spec_bytes();
        proof {
            lemma_boundary_after_first_scalar(b);
            vstd::utf8::is_char_boundary_start_end_of_seq(b);
        }
        let rest_len = rest.len();
        let end0 = if rest_len < CONTEXT_APPEND_MAX_BYTES { rest_len } else { CONTEXT_APPEND_MAX_BYTES };
        let mut end = end0;
        while end > 0 && !rest.is_char_boundary(end)
            invariant
                b == rest.spec_bytes(),
                valid_utf8(b),
                end0 <= b.len(),
                end0 == b.len() || end0 == CONTEXT_APPEND_MAX_BYTES,
                length_of_first_scalar(b) <= end <= end0,
                is_char_boundary(b, length_of_first_scalar(b)),
                is_char_boundary(b, b.len() as int),
                forall|k: int| end < k <= end0 ==> !is_char_boundary(b, k),
            decreases end,
        {
            end = end - 1;
        }
        let (chunk, tail) = rest.split_at(end);
        proof {
            let cb = chunk.spec_bytes();
            let tb = tail.spec_bytes();
            assert(cb =~= b.subrange(0, end as int));
            assert(tb =~= b.subrange(end as int, b.len() as int));
            vstd::utf8::decode_utf8_split(b, end as int);
            assert(rest@ == chunk@ + tail@);
            assert(utf8_len(chunk@) == end);
            assert(utf8_len(tail@) <= utf8_len(rest@));
            if tail@.len() > 0 {
                lemma_utf8_len_single(tail@);
                let l2 = length_of_first_scalar(tb);
                lemma_boundary_after_first_scalar(tb);
                if end + l2 <= end0 {
                    if end + l2 < b.len() {
                        vstd::utf8::is_char_boundary_iff_not_is_continuation_byte(tb, l2);
                        vstd::utf8::is_char_boundary_iff_not_is_continuation_byte(b, end + l2);
                        assert(tb[l2] == b[end + l2]);
                    }
                    assert(!is_char_boundary(b, end + l2));
                }
            }
        }
        let ghost old_views = string_views(chunks@);
        chunks.push(chunk.to_owned());
        proof {
            let views = string_views(chunks@);
            assert(views.drop_last() =~= old_views);
            assert(views.last() == chunk@);
            assert(joined(views) == joined(old_views) + chunk@);
            assert(joined(views) + tail@ =~= joined(old_views) + rest@);
        }
        rest = tail;
    }
    proof {
        let views = string_views(chunks@);
        assert(joined(views) =~= text@);
        assert forall|i: int| 0 <= i < views.len() implies
            0 < #[trigger] utf8_len(views[i]) <= CONTEXT_APPEND_MAX_BYTES by {
            assert(views[i] == chunks@[i]@);
        }
        assert forall|i: int| 0 <= i < views.len() - 1 implies
            #[trigger] utf8_len(views[i]) + utf8_len(seq![views[i + 1][0]])
                > CONTEXT_APPEND_MAX_BYTES by {
            assert(views[i] == chunks@[i]@);
            assert(views[i + 1] == chunks@[i + 1]@);
        }
    }
    chunks
}


/// Channel tag of a context append, carried by its wire name.
#[derive(Clone, Debug, PartialEq, Eq)]
pub struct RealtimeContextAppendChannel {
    pub name: String,
}

/// Content type of frameless input items.
#[derive(Clone, Copy, Debug, PartialEq, Eq)]
pub enum FramelessContentType {
    InputText,
}

/// One text item of a frameless message.
#[derive(Clone, Debug)]
pub struct FramelessInputTextContent {
    pub content_type: FramelessContentType,
    pub text: String,
}

/// Output voice of a realtime session, carried by its wire name.
#[derive(Clone, Debug, PartialEq, Eq)]
pub struct RealtimeVoice {
    pub name: String,
}

/// Speaker of a conversation text item.
#[derive(Clone, Copy, Debug, PartialEq, Eq)]
pub enum ConversationTextRole {
    User,
    Developer,
    Assistant,
}

/// A text item of a conversation handed to a new realtime session.
#[derive(Clone, Debug)]
pub struct ConversationTextParams {
    pub role: ConversationTextRole,
    pub text: String,
}

/// Outbound messages of the frameless realtime protocol that this module builds.
#[derive(Debug)]
pub enum RealtimeOutboundMessage {
    DelegationContextAppend {
        delegation_item_id: String,
        channel: Option<RealtimeContextAppendChannel>,
        content: Vec<FramelessInputTextContent>,
    },
    SessionContextAppend {
        channel: Option<RealtimeContextAppendChannel>,
        content: Vec<FramelessInputTextContent>,
    },
    FramelessSessionUpdate { session: JsonValue },
}

/// `content` is the single input-text item holding `text`.
pub open spec fn is_input_text_content(content: Seq<FramelessInputTextContent>, text: Seq<char>) -> bool {
    &&& content.len() == 1
    &&& content[0].content_type == FramelessContentType::InputText
    &&& content[0].text@ == text
}

/// The single input-text item that carries `text`.
pub fn input_text_content(text: String) -> (content: Vec<FramelessInputTextContent>)
    ensures
        is_input_text_content(content@, text@),
{
    let mut content = Vec::new();
    content.push(FramelessInputTextContent { content_type: FramelessContentType::InputText, text });
    content
}

/// A context append addressed to the delegation `delegation_item_id`.
pub fn delegation_context_append_message(
    delegation_item_id: String,
    text: String,
    channel: Option<RealtimeContextAppendChannel>,
) -> (message: RealtimeOutboundMessage)
    ensures
        message matches RealtimeOutboundMessage::DelegationContextAppend { delegation_item_id: id, channel: ch, content }
            && id@ == delegation_item_id@ && ch == channel && is_input_text_content(content@, text@),
{
    RealtimeOutboundMessage::DelegationContextAppend {
        delegation_item_id,
        channel,
        content: input_text_content(text),
    }
}

/// A context append addressed to the whole session.
pub fn session_context_append_message(
    text: String,
    channel: Option<RealtimeContextAppendChannel>,
) -> (message: RealtimeOutboundMessage)
    ensures
        message matches RealtimeOutboundMessage::SessionContextAppend { channel: ch, content }
            && ch == channel && is_input_text_content(content@, text@),
{
    RealtimeOutboundMessage::SessionContextAppend { channel, content: input_text_content(text) }
}

/// Wire name of a conversation role.
pub open spec fn role_name(role: ConversationTextRole) -> Seq<char> {
    match role {
        ConversationTextRole::User => "user"@,
        ConversationTextRole::Developer => "developer"@,
        ConversationTextRole::Assistant => "assistant"@,
    }
}

/// Content type of an initial item spoken by `role`.
pub open spec fn role_content_type(role: ConversationTextRole) -> Seq<char> {
    match role {
        ConversationTextRole::User | ConversationTextRole::Developer => "input_text"@,
        ConversationTextRole::Assistant => "output_text"@,
    }
}

/// The message object that an initial conversation item becomes.
pub open spec fn initial_item_json(role: ConversationTextRole, text: Seq<char>) -> JsonView {
    JsonView::Object(seq![
        ("type"@, JsonView::Str("message"@)),
        ("role"@, JsonView::Str(role_name(role))),
        ("content"@, JsonView::Array(seq![JsonView::Object(seq![
            ("type"@, JsonView::Str(role_content_type(role))),
            ("text"@, JsonView::Str(text)),
        ])])),
    ])
}

/// The session object of a session update, member by member.
pub open spec fn session_json_view(
    model: Option<Seq<char>>,
    instructions: Seq<char>,
    items: Seq<ConversationTextParams>,
    voice: Seq<char>,
    delegation_ack_filler: Option<bool>,
) -> JsonView {
    let delegation = seq![("type"@, JsonView::Str("client"@))] + match delegation_ack_filler {
        Some(b) => seq![("ack_filler"@, JsonView::Bool(b))],
        None => Seq::empty(),
    };
    let base = seq![
        ("instructions"@, JsonView::Str(instructions)),
        ("audio"@, JsonView::Object(seq![("output"@, JsonView::Object(seq![("voice"@, JsonView::Str(voice))]))])),
        ("delegation"@, JsonView::Object(delegation)),
    ];
    let with_model = base + match model {
        Some(m) => seq![("model"@, JsonView::Str(m))],
        None => Seq::empty(),
    };
    let with_items = with_model + if items.len() == 0 {
        Seq::empty()
    } else {
        seq![("initial_items"@, JsonView::Array(
            Seq::new(items.len(), |i: int| initial_item_json(items[i].role, items[i].text@)),
        ))]
    };
    JsonView::Object(with_items)
}

fn role_wire_name(role: ConversationTextRole) -> (s: &'static str)
    ensures
        s@ == role_name(role),
{
    match role {
        ConversationTextRole::User => "user",
        ConversationTextRole::Developer => "developer",
        ConversationTextRole::Assistant => "assistant",
    }
}

fn initial_item_value(item: &ConversationTextParams) -> (v: JsonValue)
    ensures
        v@ == initial_item_json(item.role, item.text@),
{
    let content_type = match item.role {
        ConversationTextRole::User | ConversationTextRole::Developer => "input_text",
        ConversationTextRole::Assistant => "output_text",
    };
    let mut inner: Vec<(String, JsonValue)> = Vec::new();
    push_member(&mut inner, "type", json_str(content_type));
    push_member(&mut inner, "text", JsonValue::Str(item.text.clone()));
    let mut content: Vec<JsonValue> = Vec::new();
    push_item(&mut content, json_object(inner));
    let mut members: Vec<(String, JsonValue)> = Vec::new();
    push_member(&mut members, "type", json_str("message"));
    push_member(&mut members, "role", json_str(role_wire_name(item.role)));
    push_member(&mut members, "content", json_array(content));
    let v = json_object(members);
    proof {
        assert(members_view(members@) =~= seq![
            ("type"@, JsonView::Str("message"@)),
            ("role"@, JsonView::Str(role_name(item.role))),
            ("content"@, JsonView::Array(seq![JsonView::Object(seq![
                ("type"@, JsonView::Str(role_content_type(item.role))),
                ("text"@, JsonView::Str(item.text@)),
            ])])),
        ]) by {
            assert(members_view(inner@) =~= seq![
                ("type"@, JsonView::Str(role_content_type(item.role))),
                ("text"@, JsonView::Str(item.text@)),
            ]);
            assert(items_view(content@) =~= seq![JsonView::Object(members_view(inner@))]);
        }
    }
    v
}

/// The session object sent with a session update.
pub fn session_json(
    model: Option<String>,
    instructions: String,
    initial_items: Vec<ConversationTextParams>,
    voice: RealtimeVoice,
    delegation_ack_filler: Option<bool>,
) -> (session: JsonValue)
    ensures
        session@ == session_json_view(
            opt_view(model),
            instructions@,
            initial_items@,
            voice.name@,
            delegation_ack_filler,
        ),
{
    let ghost items_in = initial_items@;
    let ghost model_in = opt_view(model);
    let ghost instructions_in = instructions@;
    let ghost voice_in = voice.name@;
    let mut delegation: Vec<(String, JsonValue)> = Vec::new();
    push_member(&mut delegation, "type", json_str("client"));
    if let Some(ack) = delegation_ack_filler {
        push_member(&mut delegation, "ack_filler", JsonValue::Bool(ack));
    }
    let ghost delegation_view = members_view(delegation@);
    assert(delegation_view =~= seq![("type"@, JsonView::Str("client"@))] + match delegation_ack_filler {
        Some(b) => seq![("ack_filler"@, JsonView::Bool(b))],
        None => Seq::empty(),
    });
    let mut voice_members: Vec<(String, JsonValue)> = Vec::new();
    push_member(&mut voice_members, "voice", JsonValue::Str(voice.name));
    let mut output: Vec<(String, JsonValue)> = Vec::new();
    push_member(&mut output, "output", json_object(voice_members));
    let mut members: Vec<(String, JsonValue)> = Vec::new();
    push_member(&mut members, "instructions", JsonValue::Str(instructions));
    push_member(&mut members, "audio", json_object(output));
    push_member(&mut members, "delegation", json_object(delegation));
    let ghost base = members_view(members@);
    assert(base =~= seq![
        ("instructions"@, JsonView::Str(instructions_in)),
        ("audio"@, JsonView::Object(seq![("output"@, JsonView::Object(seq![("voice"@, JsonView::Str(voice_in))]))])),
        ("delegation"@, JsonView::Object(delegation_view)),
    ]) by {
        assert(members_view(voice_members@) =~= seq![("voice"@, JsonView::Str(voice_in))]);
        assert(members_view(output@) =~= seq![("output"@, JsonView::Object(seq![("voice"@, JsonView::Str(voice_in))]))]);
    }
    if let Some(m) = model {
        push_member(&mut members, "model", JsonValue::Str(m));
    }
    let ghost with_model = members_view(members@);
    assert(with_model =~= base + match model_in {
        Some(m) => seq![("model"@, JsonView::Str(m))],
        None => Seq::empty(),
    });
    let n = initial_items.len();
    if n > 0 {
        let mut items: Vec<JsonValue> = Vec::new();
        let mut i: usize = 0;
        while i < n
            invariant
                n == items_in.len(),
                initial_items@ == items_in,
                i <= n,
                items@.len() == i,
                forall|j: int| 0 <= j < i ==> #[trigger] items@[j]@ == initial_item_json(items_in[j].role, items_in[j].text@),
            decreases n - i,
        {
            items.push(initial_item_value(&initial_items[i]));
            i = i + 1;
        }
        let ghost arr = items_view(items@);
        assert(arr =~= Seq::new(items_in.len(), |k: int| initial_item_json(items_in[k].role, items_in[k].text@)));
        push_member(&mut members, "initial_items", json_array(items));
    }
    let session = json_object(members);
    proof {
        assert(members_view(members@) =~= with_model + if items_in.len() == 0 {
            Seq::empty()
        } else {
            seq![("initial_items"@, JsonView::Array(
                Seq::new(items_in.len(), |k: int| initial_item_json(items_in[k].role, items_in[k].text@)),
            ))]
        });
    }
    session
}

/// The session update that starts a frameless realtime session.
pub fn session_update_message(
    instructions: String,
    initial_items: Vec<ConversationTextParams>,
    voice: RealtimeVoice,
    delegation_ack_filler: Option<bool>,
) -> (message: RealtimeOutboundMessage)
    ensures
        message matches RealtimeOutboundMessage::FramelessSessionUpdate { session }
            && session@ == session_json_view(None, instructions@, initial_items@, voice.name@, delegation_ack_filler),
{
    RealtimeOutboundMessage::FramelessSessionUpdate {
        session: session_json(None, instructions, initial_items, voice, delegation_ack_filler),
    }
}


/// Only the assistant's initial items carry output text: in a session update,
/// every initial item is a message with the item's role and text, whose
/// single content part is `output_text` for the assistant and `input_text`
/// for the user and the developer.
pub proof fn lemma_only_assistant_items_carry_output_text(
    model: Option<Seq<char>>,
    instructions: Seq<char>,
    items: Seq<ConversationTextParams>,
    voice: Seq<char>,
    delegation_ack_filler: Option<bool>,
    i: int,
)
    requires
        0 <= i < items.len(),
    ensures
        ({
            let role = items[i].role;
            let text = items[i].text@;
            session_json_view(model, instructions, items, voice, delegation_ack_filler) matches JsonView::Object(members)
                && members.last() matches (key, JsonView::Array(initial))
                && key == "initial_items"@
                && initial.len() == items.len()
                && initial[i] == JsonView::Object(seq![
                    ("type"@, JsonView::Str("message"@)),
                    ("role"@, JsonView::Str(match role {
                        ConversationTextRole::User => "user"@,
                        ConversationTextRole::Developer => "developer"@,
                        ConversationTextRole::Assistant => "assistant"@,
                    })),
                    ("content"@, JsonView::Array(seq![JsonView::Object(seq![
                        ("type"@, JsonView::Str(if role == ConversationTextRole::Assistant {
                            "output_text"@
                        } else {
                            "input_text"@
                        })),
                        ("text"@, JsonView::Str(text)),
                    ])])),
                ])
        }),
{
    let delegation = seq![("type"@, JsonView::Str("client"@))] + match delegation_ack_filler {
        Some(b) => seq![("ack_filler"@, JsonView::Bool(b))],
        None => Seq::empty(),
    };
    let base = seq![
        ("instructions"@, JsonView::Str(instructions)),
        ("audio"@, JsonView::Object(seq![("output"@, JsonView::Object(seq![("voice"@, JsonView::Str(voice))]))])),
        ("delegation"@, JsonView::Object(delegation)),
    ];
    let with_model = base + match model {
        Some(m) => seq![("model"@, JsonView::Str(m))],
        None => Seq::empty(),
    };
    let initial = Seq::new(items.len(), |k: int| initial_item_json(items[k].role, items[k].text@));
    let last = ("initial_items"@, JsonView::Array(initial));
    assert(session_json_view(model, instructions, items, voice, delegation_ack_filler)
        == JsonView::Object(with_model + seq![last]));
    assert((with_model + seq![last]).last() == last);
    assert(initial[i] == initial_item_json(items[i].role, items[i].text@));
    let role = items[i].role;
    let text = items[i].text@;
    assert(initial_item_json(role, text) =~~= JsonView::Object(seq![
        ("type"@, JsonView::Str("message"@)),
        ("role"@, JsonView::Str(match role {
            ConversationTextRole::User => "user"@,
            ConversationTextRole::Developer => "developer"@,
            ConversationTextRole::Assistant => "assistant"@,
        })),
        ("content"@, JsonView::Array(seq![JsonView::Object(seq![
            ("type"@, JsonView::Str(if role == ConversationTextRole::Assistant {
                "output_text"@
            } else {
                "input_text"@
            })),
            ("text"@, JsonView::Str(text)),
        ])])),
    ]));
}

} // verus!
