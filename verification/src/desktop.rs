//! What the desktop shell works out before it calls the windowing toolkit:
//! the sound file for an event, and the label, title and address of a chat
//! window.

use vstd::prelude::*;
use vstd::string::*;
use vstd::utf8::*;

verus! {

/// Whether a byte stands for itself in a percent-encoded text: an ASCII
/// letter or digit, or one of `-`, `.`, `_`, `~`.
pub open spec fn is_unreserved(b: u8) -> bool {
    ||| 0x30 <= b <= 0x39
    ||| 0x41 <= b <= 0x5a
    ||| 0x61 <= b <= 0x7a
    ||| b == 0x2d
    ||| b == 0x2e
    ||| b == 0x5f
    ||| b == 0x7e
}

/// The upper-case hexadecimal digit for a value below 16.
pub open spec fn hex_digit(d: u8) -> char {
    if d < 10 {
        ((0x30 + d) as u8) as char
    } else {
        ((0x41 - 10 + d) as u8) as char
    }
}

/// One byte, percent-encoded.
pub open spec fn percent_encoded_byte(b: u8) -> Seq<char> {
    if is_unreserved(b) {
        seq![b as char]
    } else {
        seq!['%', hex_digit(b / 16), hex_digit(b % 16)]
    }
}

/// A byte string, percent-encoded byte by byte.
pub open spec fn percent_encoded(bytes: Seq<u8>) -> Seq<char>
    decreases bytes.len(),
{
    if bytes.len() == 0 {
        Seq::empty()
    } else {
        percent_encoded_byte(bytes[0]) + percent_encoded(bytes.drop_first())
    }
}

/// Calls `encode` of the `urlencoding` crate: every byte of the text's
/// UTF-8 form stands for itself where it is unreserved and becomes `%` and
/// two upper-case hexadecimal digits where it is not.
#[verifier::external_body]
fn percent_encode(text: &str) -> (encoded: String)
    ensures
        encoded@ == percent_encoded(encode_utf8(text@)),
{
    urlencoding::encode(text).into_owned()
}

/// Whether two texts are the same.
fn same_text(a: &str, b: &str) -> (same: bool)
    ensures
        same == (a@ == b@),
{
    a.to_owned() == b.to_owned()
}

/// The sound file for each kind of event. A contact that goes offline
/// sounds like one that comes online.
pub open spec fn sound_file_spec(sound_type: Seq<char>) -> Option<Seq<char>> {
    if sound_type == "message"@ {
        Some("new_mesage.mp3"@)
    } else if sound_type == "contact_online"@ {
        Some("contact_online.mp3"@)
    } else if sound_type == "contact_offline"@ {
        Some("contact_online.mp3"@)
    } else if sound_type == "nudge"@ {
        Some("nudge.mp3"@)
    } else if sound_type == "video_call"@ {
        Some("video_call.mp3"@)
    } else {
        None
    }
}

/// The address of the sound for a kind of event, below the application's
/// assets: `sounds/` and the file's name.
pub open spec fn sound_asset_spec(sound_type: Seq<char>) -> Option<Seq<char>> {
    match sound_file_spec(sound_type) {
        Some(file) => Some("sounds/"@ + file),
        None => None,
    }
}

/// The sound file for a kind of event, or `None` for a kind that has no
/// sound.
pub fn sound_file(sound_type: &str) -> (file: Option<&'static str>)
    ensures
        file is Some <==> sound_file_spec(sound_type@) is Some,
        file matches Some(f) ==> sound_file_spec(sound_type@) == Some(f@),
{
    if same_text(sound_type, "message") {
        Some("new_mesage.mp3")
    } else if same_text(sound_type, "contact_online") {
        Some("contact_online.mp3")
    } else if same_text(sound_type, "contact_offline") {
        Some("contact_online.mp3")
    } else if same_text(sound_type, "nudge") {
        Some("nudge.mp3")
    } else if same_text(sound_type, "video_call") {
        Some("video_call.mp3")
    } else {
        None
    }
}

/// The address of the sound for a kind of event, or `None` for a kind that
/// has no sound.
pub fn sound_asset(sound_type: &str) -> (asset: Option<String>)
    ensures
        asset is Some <==> sound_asset_spec(sound_type@) is Some,
        asset matches Some(a) ==> sound_asset_spec(sound_type@) == Some(a@),
{
    match sound_file(sound_type) {
        Some(file) => Some("sounds/".to_owned().concat(file)),
        None => None,
    }
}

/// The label of the chat window for a conversation.
pub open spec fn chat_window_label_spec(dialog_window: Seq<char>) -> Seq<char> {
    "chat-"@ + dialog_window
}

/// The title of a chat window: the contact's name where it is known, else
/// the conversation's identifier.
pub open spec fn chat_window_title_spec(dialog_window: Seq<char>, contact_name: Option<Seq<char>>) -> Seq<char> {
    match contact_name {
        Some(name) => name,
        None => dialog_window,
    }
}

/// The address that a chat window loads. With a contact's name the
/// conversation is with a user, and the name goes along percent-encoded;
/// without one only the contact's identifier goes along.
pub open spec fn chat_window_url_spec(dialog_window: Seq<char>, contact_name: Option<Seq<char>>) -> Seq<char> {
    match contact_name {
        Some(name) => "chat-window.html?contactUserId="@ + dialog_window + "&contactName="@
            + percent_encoded(encode_utf8(name)),
        None => "chat-window.html?contactId="@ + dialog_window,
    }
}

/// The label of the chat window for a conversation. A window with this
/// label that is already open is focused, and no second one is built.
pub fn chat_window_label(dialog_window: &str) -> (label: String)
    ensures
        label@ == chat_window_label_spec(dialog_window@),
{
    "chat-".to_owned().concat(dialog_window)
}

/// The title of a chat window.
pub fn chat_window_title(dialog_window: &str, contact_name: &Option<String>) -> (title: String)
    ensures
        title@ == chat_window_title_spec(dialog_window@, crate::store::text_opt_view(*contact_name)),
{
    match contact_name {
        Some(name) => name.clone(),
        None => dialog_window.to_owned(),
    }
}

/// The address that a chat window loads.
pub fn chat_window_url(dialog_window: &str, contact_name: &Option<String>) -> (url: String)
    ensures
        url@ == chat_window_url_spec(dialog_window@, crate::store::text_opt_view(*contact_name)),
{
    match contact_name {
        Some(name) => {
            let encoded = percent_encode(name.as_str());
            "chat-window.html?contactUserId=".to_owned().concat(dialog_window).concat(
                "&contactName=",
            ).concat(encoded.as_str())
        },
        None => "chat-window.html?contactId=".to_owned().concat(dialog_window),
    }
}

} // verus!
