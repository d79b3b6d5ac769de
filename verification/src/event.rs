//! Rendering of one server-sent event: its id, its type label, its JSON
//! payload, and the wire frame that carries the three.

use vstd::prelude::*;
use crate::clock::{format_utc_millis, formatted_utc, renderable_millis};
use crate::digits::{dec_text, dec_text_signed, i64_to_dec, u64_to_dec};

verus! {

/// The fixed event-type label every data event carries.
pub open spec fn event_label() -> Seq<char> {
    "message"@
}

/// The JSON payload of one data event: the instant in epoch milliseconds,
/// and a human-readable line embedding the same instant.
pub open spec fn payload_text(ms: int, clock_text: Seq<char>) -> Seq<char> {
    "{\"timestamp\":"@ + dec_text_signed(ms) + ",\"message\":\"当前时间: "@ + clock_text
        + "\"}"@
}

/// The SSE wire frame for one event: an id line, an event-type line, a data
/// line, and the blank line that ends the frame.
pub open spec fn frame_text(id: Seq<char>, label: Seq<char>, data: Seq<char>) -> Seq<char> {
    "id: "@ + id + "\nevent: "@ + label + "\ndata: "@ + data + "\n\n"@
}

/// One rendered server-sent event.
pub struct SseEvent {
    /// The event identifier: the connection's sequence number in decimal.
    pub id: String,
    /// The event-type label.
    pub label: String,
    /// The JSON payload.
    pub data: String,
}

/// Renders the JSON payload from an instant and its formatted text.
pub fn render_payload(ms: i64, clock_text: &str) -> (r: String)
    ensures
        r@ == payload_text(ms as int, clock_text@),
{
    let mut out = String::from_str("{\"timestamp\":");
    let num = i64_to_dec(ms);
    out.append(num.as_str());
    out.append(",\"message\":\"当前时间: ");
    out.append(clock_text);
    out.append("\"}");
    proof {
        assert(out@ =~= payload_text(ms as int, clock_text@));
    }
    out
}

/// Builds the data event numbered `sequence_id` for the instant `ms`:
/// the id in decimal, the fixed label, and the JSON payload carrying the
/// instant twice. Succeeds on every renderable instant; `None` can come
/// only of an instant beyond chrono's calendar range.
pub fn make_event(sequence_id: u64, ms: i64) -> (r: Option<SseEvent>)
    ensures
        r matches Some(ev) ==> {
            &&& ev.id@ == dec_text(sequence_id as nat)
            &&& ev.label@ == event_label()
            &&& ev.data@ == payload_text(ms as int, formatted_utc(ms as int))
        },
        renderable_millis(ms as int) ==> r is Some,
{
    match format_utc_millis(ms) {
        Some(clock_text) => {
            let id = u64_to_dec(sequence_id);
            let label = String::from_str("message");
            let data = render_payload(ms, clock_text.as_str());
            Some(SseEvent { id, label, data })
        },
        None => None,
    }
}

/// Renders the full SSE wire frame of an event.
pub fn sse_frame(ev: &SseEvent) -> (r: String)
    ensures
        r@ == frame_text(ev.id@, ev.label@, ev.data@),
{
    let mut out = String::from_str("id: ");
    out.append(ev.id.as_str());
    out.append("\nevent: ");
    out.append(ev.label.as_str());
    out.append("\ndata: ");
    out.append(ev.data.as_str());
    out.append("\n\n");
    proof {
        assert(out@ =~= frame_text(ev.id@, ev.label@, ev.data@));
    }
    out
}

} // verus!
