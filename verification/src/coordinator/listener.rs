//! The router's decisions: how one inbound message translates to at most
//! one outbound GUI message, and what has to be dispatched on the way. The
//! task that drains the four inbound channels lives outside this crate and
//! calls `route_message` for every message it receives.

use vstd::prelude::*;
use crate::coordinator::types::{
    CoordinatorMessage, FeedbackData, GuiMessage, HyprlandEventData, SearchMessageData,
    ShunpoSocketEventData,
};
use crate::search::entity_model::Dispatcher;
use crate::text::{strip_suffix_all, strip_suffix2_all, trim, trim_spec};

verus! {

/// A command the router wants executed: the cleaned launch command of a
/// chosen entity, and how to dispatch it.
#[derive(Debug, PartialEq)]
pub struct DispatchRequest {
    pub command: String,
    pub dispatcher: Dispatcher,
}

/// The launch command as it is dispatched: desktop-entry field codes for
/// URLs are dropped from the end, then surrounding white space.
pub open spec fn clean_command_spec(s: Seq<char>) -> Seq<char> {
    trim_spec(strip_suffix_all(strip_suffix_all(s, "%u"@), "%U"@))
}

/// Cleans one launch command; see `clean_command_spec`.
pub fn clean_command(s: &str) -> (r: String)
    ensures
        r@ == clean_command_spec(s@),
{
    proof {
        reveal_strlit("%u");
        reveal_strlit("%U");
    }
    let a = strip_suffix2_all(s, "%u");
    let b = strip_suffix2_all(a, "%U");
    let c = trim(b);
    c.to_owned()
}

/// A compositor message carries its GUI message through unchanged.
pub fn handle_hyprland(msg: HyprlandEventData) -> (r: GuiMessage)
    ensures
        r == msg.gui_msg,
{
    msg.gui_msg
}

/// The control socket's only request toggles the UI mode.
pub fn handle_shunpo_socket(msg: ShunpoSocketEventData) -> (r: GuiMessage)
    ensures
        r == GuiMessage::ToggleUiMode,
{
    match msg {
        ShunpoSocketEventData::ToggleUiMode => GuiMessage::ToggleUiMode,
    }
}

/// A batch of search results is displayed as it is.
pub fn handle_search(msg: SearchMessageData) -> (r: GuiMessage)
    ensures
        r matches GuiMessage::DisplayResults(d) && d == msg,
{
    GuiMessage::DisplayResults(msg)
}

/// GUI feedback either passes a message through, or asks to run an entity:
/// then its command is cleaned, dispatched as the entity says, and the GUI
/// is put back to sleep.
pub fn handle_feedback(msg: FeedbackData) -> (r: (Option<DispatchRequest>, GuiMessage))
    ensures
        match msg {
            FeedbackData::GuiMessagePassthrough(g) => r.0 is None && r.1 == g,
            FeedbackData::Run(e) => {
                &&& r.0 matches Some(req) && req.command@ == clean_command_spec(e.command@)
                    && req.dispatcher == e.dispatcher
                &&& r.1 == GuiMessage::Sleep
            },
        },
{
    match msg {
        FeedbackData::GuiMessagePassthrough(g) => (None, g),
        FeedbackData::Run(e) => {
            let command = clean_command(e.command.as_str());
            (Some(DispatchRequest { command, dispatcher: e.dispatcher }), GuiMessage::Sleep)
        },
    }
}

/// The outbound GUI message one inbound message translates to, if any.
/// Every message of the four live sources yields exactly one.
pub open spec fn route_outbound_spec(m: CoordinatorMessage) -> Option<GuiMessage> {
    match m {
        CoordinatorMessage::HyprlandEvent(d) => Some(d.gui_msg),
        CoordinatorMessage::ShunpoSocketEvent(_) => Some(GuiMessage::ToggleUiMode),
        CoordinatorMessage::RipgrepResult(_) => None,
        CoordinatorMessage::SearchMessage(d) => Some(GuiMessage::DisplayResults(d)),
        CoordinatorMessage::Feedback(FeedbackData::GuiMessagePassthrough(g)) => Some(g),
        CoordinatorMessage::Feedback(FeedbackData::Run(_)) => Some(GuiMessage::Sleep),
    }
}

/// Routes one inbound message: at most one command to dispatch, at most one
/// outbound GUI message.
pub fn route_message(msg: CoordinatorMessage) -> (r: (Option<DispatchRequest>, Option<
    GuiMessage,
>))
    ensures
        r.1 == route_outbound_spec(msg),
        match msg {
            CoordinatorMessage::Feedback(FeedbackData::Run(e)) => r.0 matches Some(req)
                && req.command@ == clean_command_spec(e.command@) && req.dispatcher
                == e.dispatcher,
            _ => r.0 is None,
        },
{
    match msg {
        CoordinatorMessage::HyprlandEvent(d) => (None, Some(handle_hyprland(d))),
        CoordinatorMessage::ShunpoSocketEvent(s) => (None, Some(handle_shunpo_socket(s))),
        CoordinatorMessage::RipgrepResult(_) => (None, None),
        CoordinatorMessage::SearchMessage(d) => (None, Some(handle_search(d))),
        CoordinatorMessage::Feedback(f) => {
            let (req, gui) = handle_feedback(f);
            (req, Some(gui))
        },
    }
}

/// How many outbound messages a run of inbound messages yields.
pub open spec fn outbound_count(ms: Seq<CoordinatorMessage>) -> int
    decreases ms.len(),
{
    if ms.len() == 0 {
        0
    } else {
        (if route_outbound_spec(ms[0]) is Some {
            1int
        } else {
            0int
        }) + outbound_count(ms.drop_first())
    }
}

/// The router emits exactly one outbound GUI message per inbound message of
/// the four live sources: a run that receives one message on each channel
/// and then sees them all closed emits exactly as many messages as it
/// received, whatever their order.
pub proof fn lemma_one_outbound_per_message(ms: Seq<CoordinatorMessage>)
    requires
        forall|i: int| 0 <= i < ms.len() ==> !(#[trigger] ms[i] is RipgrepResult),
    ensures
        outbound_count(ms) == ms.len(),
    decreases ms.len(),
{
    if ms.len() > 0 {
        assert(route_outbound_spec(ms[0]) is Some);
        assert(forall|i: int|
            0 <= i < ms.drop_first().len() ==> !(#[trigger] ms.drop_first()[i]
                is RipgrepResult));
        lemma_one_outbound_per_message(ms.drop_first());
    }
}

} // verus!
