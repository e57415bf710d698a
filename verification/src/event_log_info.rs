//! The event-log probe: parses the XML export of the event-log query tool
//! into normalized entries, and builds the time-filtered query it is run
//! with. Running the tool itself is the surrounding application's job.

use vstd::prelude::*;
use crate::text::{chars_string, split_on, split_sub, str_chars, str_eq_str, trim_chars, trim_spec};
use crate::xml::{extract_xml_attr, extract_xml_value, xml_attr_spec, xml_value_spec};

verus! {

/// One normalized event-log entry.
pub struct EventEntry {
    /// Severity, as a word ("Critical", "Error", "Warning") where the
    /// source's numeric level is recognized, else the raw level text.
    pub level: String,
    /// The provider that wrote the event.
    pub source: String,
    /// The event identifier, as text.
    pub event_id: String,
    /// The creation timestamp, as the source formatted it.
    pub time_created: String,
    /// The first data payload of the event, if any.
    pub message: String,
}

/// The event-log category: recent system and application events.
pub struct EventLogInfo {
    /// Events of the system log, most recent first.
    pub system_events: Vec<EventEntry>,
    /// Events of the application log, most recent first.
    pub application_events: Vec<EventEntry>,
}

/// The fields of one entry, at the specification level.
pub struct EventFields {
    /// Severity text.
    pub level: Seq<char>,
    /// Provider name.
    pub source: Seq<char>,
    /// Event identifier text.
    pub event_id: Seq<char>,
    /// Creation timestamp text.
    pub time_created: Seq<char>,
    /// First data payload.
    pub message: Seq<char>,
}

impl EventEntry {
    /// The entry's fields as sequences.
    pub open spec fn view_fields(self) -> EventFields {
        EventFields {
            level: self.level@,
            source: self.source@,
            event_id: self.event_id@,
            time_created: self.time_created@,
            message: self.message@,
        }
    }
}

/// The text of an optional extraction, empty when absent.
pub open spec fn opt_text(o: Option<Seq<char>>) -> Seq<char> {
    match o {
        Some(s) => s,
        None => Seq::<char>::empty(),
    }
}

/// The severity word of a block: numeric levels one to three become words,
/// any other extracted text stands as it is, absence becomes empty text.
pub open spec fn level_text(b: Seq<char>) -> Seq<char> {
    match xml_value_spec(b, "Level"@) {
        None => Seq::<char>::empty(),
        Some(l) => if l == "1"@ {
            "Critical"@
        } else if l == "2"@ {
            "Error"@
        } else if l == "3"@ {
            "Warning"@
        } else {
            l
        },
    }
}

/// The entries one split block contributes: none for a whitespace-only
/// block or one without a level, else exactly one.
pub open spec fn block_events(b: Seq<char>) -> Seq<EventFields> {
    if trim_spec(b).len() == 0 {
        Seq::<EventFields>::empty()
    } else {
        let lv = level_text(b);
        if lv.len() == 0 {
            Seq::<EventFields>::empty()
        } else {
            seq![
                EventFields {
                    level: lv,
                    source: opt_text(xml_attr_spec(b, "Provider"@, "Name"@)),
                    event_id: opt_text(xml_value_spec(b, "EventID"@)),
                    time_created: opt_text(xml_attr_spec(b, "TimeCreated"@, "SystemTime"@)),
                    message: opt_text(xml_value_spec(b, "Data"@)),
                },
            ]
        }
    }
}

/// The entries of a sequence of blocks, in order.
pub open spec fn events_of_blocks(blocks: Seq<Seq<char>>) -> Seq<EventFields>
    decreases blocks.len(),
{
    if blocks.len() == 0 {
        Seq::<EventFields>::empty()
    } else {
        events_of_blocks(blocks.drop_last()) + block_events(blocks.last())
    }
}

/// What parsing an event-log XML export yields: the export is cut at every
/// `<Event xmlns=` opening, and each piece contributes its entry.
pub open spec fn parse_event_xml_spec(xml: Seq<char>) -> Seq<EventFields> {
    events_of_blocks(split_on(xml, "<Event xmlns="@))
}

/// Parses the XML export of the event-log query tool into entries.
pub fn parse_event_xml(xml: &str) -> (r: Vec<EventEntry>)
    ensures
        r@.len() == parse_event_xml_spec(xml@).len(),
        forall|i: int|
            0 <= i < r@.len() ==> (#[trigger] r@[i]).view_fields() == parse_event_xml_spec(xml@)[i],
{
    let xv = str_chars(xml);
    let sep = str_chars("<Event xmlns=");
    proof {
        reveal_strlit("<Event xmlns=");
    }
    let blocks = split_sub(&xv, &sep);
    let ghost all_blocks = split_on(xml@, "<Event xmlns="@);
    let n = blocks.len();
    let mut events: Vec<EventEntry> = Vec::new();
    let mut i: usize = 0;
    proof {
        assert(all_blocks.subrange(0, 0).len() == 0);
    }
    while i < n
        invariant
            i <= n,
            n == blocks@.len(),
            n == all_blocks.len(),
            forall|k: int| 0 <= k < n ==> #[trigger] blocks@[k]@ == all_blocks[k],
            events@.len() == events_of_blocks(all_blocks.subrange(0, i as int)).len(),
            forall|k: int|
                0 <= k < events@.len() ==> (#[trigger] events@[k]).view_fields()
                    == events_of_blocks(all_blocks.subrange(0, i as int))[k],
        decreases n - i,
    {
        let ghost done = all_blocks.subrange(0, i as int);
        let ghost done_next = all_blocks.subrange(0, i + 1 as int);
        proof {
            assert(done_next.drop_last() =~= done);
            assert(done_next.last() == all_blocks[i as int]);
        }
        let block = &blocks[i];
        let trimmed = trim_chars(block);
        if trimmed.len() > 0 {
            let bs = chars_string(block);
            let level: String = match extract_xml_value(bs.as_str(), "Level") {
                None => String::new(),
                Some(l) => {
                    if str_eq_str(l.as_str(), "1") {
                        String::from_str("Critical")
                    } else if str_eq_str(l.as_str(), "2") {
                        String::from_str("Error")
                    } else if str_eq_str(l.as_str(), "3") {
                        String::from_str("Warning")
                    } else {
                        l
                    }
                },
            };
            proof {
                assert(level@ == level_text(all_blocks[i as int]));
            }
            if !level.as_str().is_empty() {
                let source = match extract_xml_attr(bs.as_str(), "Provider", "Name") {
                    Some(s) => s,
                    None => String::new(),
                };
                let event_id = match extract_xml_value(bs.as_str(), "EventID") {
                    Some(s) => s,
                    None => String::new(),
                };
                let time_created = match extract_xml_attr(bs.as_str(), "TimeCreated", "SystemTime") {
                    Some(s) => s,
                    None => String::new(),
                };
                let message = match extract_xml_value(bs.as_str(), "Data") {
                    Some(s) => s,
                    None => String::new(),
                };
                let entry = EventEntry { level, source, event_id, time_created, message };
                events.push(entry);
            }
        }
        i = i + 1;
    }
    proof {
        assert(all_blocks.subrange(0, n as int) =~= all_blocks);
    }
    events
}

/// Builds the structured event query for entries at warning level or worse
/// created at or after `since`.
pub fn build_event_query(since: &str) -> (q: String)
    ensures
        q@ == "*[System[(Level>=1 and Level<=3) and TimeCreated[@SystemTime>='"@ + since@
            + "']]]"@,
{
    let mut q = String::from_str("*[System[(Level>=1 and Level<=3) and TimeCreated[@SystemTime>='");
    q.append(since);
    q.append("']]]");
    q
}

impl EventLogInfo {
    /// Assembles the category from the two logs' parsed entries.
    pub fn from_events(system_events: Vec<EventEntry>, application_events: Vec<EventEntry>) -> (r:
        EventLogInfo)
        ensures
            r.system_events == system_events,
            r.application_events == application_events,
    {
        EventLogInfo { system_events, application_events }
    }
}

} // verus!
