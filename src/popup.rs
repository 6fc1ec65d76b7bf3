//! The markup of a map marker's popup.

use vstd::prelude::*;
use crate::acled::{AcledEvent, EventModel};
use crate::text::{decimal, decimal_text, shorten, shortened};

verus! {

/// The longest notes that a popup shows in full.
pub const POPUP_NOTES_LIMIT: usize = 100;

/// The line on fatalities, present only when the number is reported.
pub open spec fn fatalities_markup(f: Option<u32>) -> Seq<char> {
    match f {
        Some(n) => "<p style='margin: 4px 0; color: #ff6666;'><strong>Fatalities:</strong> "@
            + decimal(n as nat) + "</p>"@,
        None => Seq::empty(),
    }
}

/// The popup of an event: its type as a heading, then date, location, both
/// actors, the fatalities when reported, and the notes cut to
/// `POPUP_NOTES_LIMIT` characters.
pub open spec fn popup_markup(e: EventModel) -> Seq<char> {
    "<div style='color: #00ff00; background: #0a0a0a; font-family: \"Pixelify Sans\";'>"@
        + "<h4 style='margin: 0 0 8px 0; color: #00ff00;'>"@ + e.event_type + "</h4>"@
        + "<p style='margin: 4px 0;'><strong>Date:</strong> "@ + e.event_date + "</p>"@
        + "<p style='margin: 4px 0;'><strong>Location:</strong> "@ + e.location + "</p>"@
        + "<p style='margin: 4px 0;'><strong>Actor 1:</strong> "@ + e.actor1 + "</p>"@
        + "<p style='margin: 4px 0;'><strong>Actor 2:</strong> "@ + e.actor2 + "</p>"@
        + fatalities_markup(e.fatalities)
        + "<p style='margin: 4px 0; font-style: italic; font-size: 0.9em;'>"@
        + shortened(e.notes, POPUP_NOTES_LIMIT as nat) + "</p>"@ + "</div>"@
}

fn fatalities_line(f: Option<u32>) -> (r: String)
    ensures
        r@ == fatalities_markup(f),
{
    match f {
        Some(n) => {
            let mut r = String::from_str(
                "<p style='margin: 4px 0; color: #ff6666;'><strong>Fatalities:</strong> ",
            );
            let digits = decimal_text(n);
            r.append(digits.as_str());
            r.append("</p>");
            r
        },
        None => String::new(),
    }
}

/// The popup markup shown for `event` on the map.
pub fn generate_popup_content(event: &AcledEvent) -> (r: String)
    ensures
        r@ == popup_markup(event@),
{
    let mut r = String::from_str(
        "<div style='color: #00ff00; background: #0a0a0a; font-family: \"Pixelify Sans\";'>",
    );
    r.append("<h4 style='margin: 0 0 8px 0; color: #00ff00;'>");
    r.append(event.event_type.as_str());
    r.append("</h4>");
    r.append("<p style='margin: 4px 0;'><strong>Date:</strong> ");
    r.append(event.event_date.as_str());
    r.append("</p>");
    r.append("<p style='margin: 4px 0;'><strong>Location:</strong> ");
    r.append(event.location.as_str());
    r.append("</p>");
    r.append("<p style='margin: 4px 0;'><strong>Actor 1:</strong> ");
    r.append(event.actor1.as_str());
    r.append("</p>");
    r.append("<p style='margin: 4px 0;'><strong>Actor 2:</strong> ");
    r.append(event.actor2.as_str());
    r.append("</p>");
    let fatalities = fatalities_line(event.fatalities);
    r.append(fatalities.as_str());
    r.append("<p style='margin: 4px 0; font-style: italic; font-size: 0.9em;'>");
    let notes = shorten(event.notes.as_str(), POPUP_NOTES_LIMIT);
    r.append(notes.as_str());
    r.append("</p>");
    r.append("</div>");
    r
}

} // verus!
