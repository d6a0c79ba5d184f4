//! The markup fragments that a session sends to its peer.

use vstd::prelude::*;
use vstd::string::*;

verus! {

/// The text of the one frame that greets a newly established connection.
pub const GREETING: &'static str = "Hello world!";

/// Opens the sub-fragment that appends to the chat log.
pub const APPEND_OPEN: &'static str =
    "\n                            <div id=\"chat_room\" hx-swap-oob=\"beforeend\">";

/// The line break that ends every appended message.
pub const LINE_BREAK: &'static str = "<br>";

/// Closes the chat-log sub-fragment.
pub const APPEND_CLOSE: &'static str = "</div>\n\n                            ";

/// The sub-fragment that replaces the composer form with a fresh one.
pub const COMPOSER: &'static str = "<form id=\"form-ws\" ws-send hx-swap-oob=\"morphdom\">\n                                <label>\n                                    <input id=\"typed_message\" name=\"chat_message\" type=\"text\" placeholder=\"Type your message...\" autofocus autocomplete required minlength=\"5\" maxlength=\"20\" />\n                                </label>\n                                <button type=\"submit\">submit</button>\n                            </form>\n\n                            ";

/// The fragment that shows `message`. It has two parts, in this order: the sub-fragment that
/// appends the message and a line break to the chat log, and the sub-fragment that replaces
/// the composer. The message stands in it exactly as given.
pub open spec fn fragment_text(message: Seq<char>) -> Seq<char> {
    APPEND_OPEN@ + message + LINE_BREAK@ + APPEND_CLOSE@ + COMPOSER@
}

/// Renders the fragment that shows an already sanitized message. The renderer embeds the text
/// as it is: sanitizing is the caller's part.
pub fn render_fragment(sanitized: &str) -> (fragment: String)
    ensures
        fragment@ == fragment_text(sanitized@),
{
    let mut fragment = String::from_str(APPEND_OPEN);
    fragment.append(sanitized);
    fragment.append(LINE_BREAK);
    fragment.append(APPEND_CLOSE);
    fragment.append(COMPOSER);
    fragment
}

} // verus!
