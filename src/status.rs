//! Presence and calendar data, the status derived from them on each poll,
//! and its rendering as a request path for the display device.

use vstd::prelude::*;

use crate::clock::{
    format_utc, local_offset_secs, naive_utc_millis, now_millis, parse_naive_utc, utc_formatted,
};
use crate::text::{decimal, decimal_string, pad_left, pad_left_string};

verus! {

/// Upstream availability of the user.
#[derive(Clone, Copy, Debug, PartialEq, Eq, Structural)]
pub enum Availability {
    Available,
    AvailableIdle,
    Away,
    BeRightBack,
    Busy,
    BusyIdle,
    DoNotDisturb,
    Offline,
    PresenceUnknown,
}

/// Upstream activity of the user.
#[derive(Clone, Copy, Debug, PartialEq, Eq, Structural)]
pub enum Activity {
    Available,
    Away,
    BeRightBack,
    Busy,
    DoNotDisturb,
    InACall,
    InAConferenceCall,
    Inactive,
    InAMeeting,
    Offline,
    OffWork,
    OutOfOffice,
    PresenceUnknown,
    Presenting,
    UrgentInterruptionsOnly,
}

/// The colours that the display can be set to.
#[derive(Clone, Copy, Debug, PartialEq, Eq, Structural)]
pub enum ScreenColor {
    Green,
    Yellow,
    Red,
    Late,
}

/// The user's current presence.
#[derive(Clone, Debug)]
pub struct Presence {
    pub id: String,
    pub availability: Availability,
    pub activity: Activity,
}

/// A calendar event; `start` and `end` are UTC instants in milliseconds since
/// the Unix epoch.
#[derive(Clone, Debug)]
pub struct Event {
    pub subject: String,
    pub start: i64,
    pub end: i64,
    pub attendee_count: usize,
}

/// The events of the coming days, in ascending order of start time as the
/// upstream service returns them.
#[derive(Clone, Debug)]
pub struct CalendarView {
    pub value: Vec<Event>,
}

/// Presence combined with the next relevant event, as shown on the display.
#[derive(Clone, Debug)]
pub struct Status {
    pub availability: Availability,
    pub activity: Activity,
    pub event_start: i64,
    pub event_end: i64,
    pub event_subject: String,
    pub event_attendee_count: usize,
}

/// Failure to read an upstream timestamp.
#[derive(Clone, Copy, Debug, PartialEq, Eq, Structural)]
pub enum DateTimeParseError {
    /// The event's start time could not be read.
    Start,
    /// The event's end time could not be read.
    End,
}

/// The pattern of the upstream service's naive timestamps, which are UTC.
pub open spec fn graph_pattern() -> Seq<char> {
    "%Y-%m-%dT%H:%M:%S%.f"@
}

/// The fixed colour of each availability.
pub open spec fn base_color(a: Availability) -> ScreenColor {
    match a {
        Availability::Available => ScreenColor::Green,
        Availability::AvailableIdle => ScreenColor::Yellow,
        Availability::Away => ScreenColor::Yellow,
        Availability::BeRightBack => ScreenColor::Yellow,
        Availability::Offline => ScreenColor::Yellow,
        Availability::PresenceUnknown => ScreenColor::Yellow,
        Availability::Busy => ScreenColor::Red,
        Availability::BusyIdle => ScreenColor::Red,
        Availability::DoNotDisturb => ScreenColor::Red,
    }
}

/// The path segment of the display device that selects a colour.
pub open spec fn color_name(c: ScreenColor) -> Seq<char> {
    match c {
        ScreenColor::Green => "green"@,
        ScreenColor::Yellow => "yellow"@,
        ScreenColor::Red => "red"@,
        ScreenColor::Late => "late"@,
    }
}

/// Human-readable availability.
pub open spec fn availability_label(a: Availability) -> Seq<char> {
    match a {
        Availability::Available => "Available"@,
        Availability::AvailableIdle => "Available (Idle)"@,
        Availability::Away => "Away from Computer"@,
        Availability::BeRightBack => "Be Right Back"@,
        Availability::Busy => "Busy"@,
        Availability::BusyIdle => "Busy (Idle)"@,
        Availability::DoNotDisturb => "Do Not Disturb"@,
        Availability::Offline => "Offline"@,
        Availability::PresenceUnknown => "Dono"@,
    }
}

/// Human-readable activity.
pub open spec fn activity_label(a: Activity) -> Seq<char> {
    match a {
        Activity::Available => "Available"@,
        Activity::Away => "Away"@,
        Activity::BeRightBack => "Be Right Back"@,
        Activity::Busy => "Busy"@,
        Activity::DoNotDisturb => "Do Not Disturb"@,
        Activity::InACall => "In a Call"@,
        Activity::InAConferenceCall => "In a Conference Call"@,
        Activity::Inactive => "Inactive"@,
        Activity::InAMeeting => "In a Meeting"@,
        Activity::Offline => "Offline"@,
        Activity::OffWork => "Off Work!"@,
        Activity::OutOfOffice => "Out of Office!"@,
        Activity::PresenceUnknown => "Presence Unknown ??"@,
        Activity::Presenting => "Presenting"@,
        Activity::UrgentInterruptionsOnly => "Urgent Interruptions ONLY"@,
    }
}

/// The name of each availability in the upstream service's JSON.
pub open spec fn availability_name(a: Availability) -> Seq<char> {
    match a {
        Availability::Available => "Available"@,
        Availability::AvailableIdle => "AvailableIdle"@,
        Availability::Away => "Away"@,
        Availability::BeRightBack => "BeRightBack"@,
        Availability::Busy => "Busy"@,
        Availability::BusyIdle => "BusyIdle"@,
        Availability::DoNotDisturb => "DoNotDisturb"@,
        Availability::Offline => "Offline"@,
        Availability::PresenceUnknown => "PresenceUnknown"@,
    }
}

/// The name of each activity in the upstream service's JSON.
pub open spec fn activity_name(a: Activity) -> Seq<char> {
    match a {
        Activity::Available => "Available"@,
        Activity::Away => "Away"@,
        Activity::BeRightBack => "BeRightBack"@,
        Activity::Busy => "Busy"@,
        Activity::DoNotDisturb => "DoNotDisturb"@,
        Activity::InACall => "InACall"@,
        Activity::InAConferenceCall => "InAConferenceCall"@,
        Activity::Inactive => "Inactive"@,
        Activity::InAMeeting => "InAMeeting"@,
        Activity::Offline => "Offline"@,
        Activity::OffWork => "OffWork"@,
        Activity::OutOfOffice => "OutOfOffice"@,
        Activity::PresenceUnknown => "PresenceUnknown"@,
        Activity::Presenting => "Presenting"@,
        Activity::UrgentInterruptionsOnly => "UrgentInterruptionsOnly"@,
    }
}

fn same_text(text: &String, lit: &str) -> (r: bool)
    ensures
        r == (text@ == lit@),
{
    text.eq(&String::from_str(lit))
}

/// The first event, in list order, that has not ended at `now`.
pub open spec fn next_event(events: Seq<Event>, now: int) -> Option<Event>
    decreases events.len(),
{
    if events.len() == 0 {
        None
    } else if events[0].end > now {
        Some(events[0])
    } else {
        next_event(events.drop_first(), now)
    }
}

/// Distinct colours have distinct names.
pub proof fn lemma_color_names_distinct(c1: ScreenColor, c2: ScreenColor)
    ensures
        color_name(c1) == color_name(c2) ==> c1 == c2,
{
    reveal_strlit("green");
    reveal_strlit("yellow");
    reveal_strlit("red");
    reveal_strlit("late");
    if color_name(c1) == color_name(c2) {
        assert(color_name(c1).len() == color_name(c2).len());
        assert(color_name(c1)[0] == color_name(c2)[0]);
    }
}

impl ScreenColor {
    /// The colour's path segment on the display device.
    pub fn name(&self) -> (r: &'static str)
        ensures
            r@ == color_name(*self),
    {
        match self {
            ScreenColor::Green => "green",
            ScreenColor::Yellow => "yellow",
            ScreenColor::Red => "red",
            ScreenColor::Late => "late",
        }
    }
}

impl Availability {
    /// The fixed colour of this availability.
    pub fn color(&self) -> (r: ScreenColor)
        ensures
            r == base_color(*self),
    {
        match self {
            Availability::Available => ScreenColor::Green,
            Availability::AvailableIdle => ScreenColor::Yellow,
            Availability::Away => ScreenColor::Yellow,
            Availability::BeRightBack => ScreenColor::Yellow,
            Availability::Offline => ScreenColor::Yellow,
            Availability::PresenceUnknown => ScreenColor::Yellow,
            Availability::Busy => ScreenColor::Red,
            Availability::BusyIdle => ScreenColor::Red,
            Availability::DoNotDisturb => ScreenColor::Red,
        }
    }

    /// The variant that the upstream service names `name`.
    pub fn from_name(name: &str) -> (r: Option<Availability>)
        ensures
            match r {
                Some(a) => availability_name(a) == name@,
                None => forall|a: Availability| #[trigger] availability_name(a) != name@,
            },
    {
        let text = String::from_str(name);
        if same_text(&text, "Available") {
            Some(Availability::Available)
        } else if same_text(&text, "AvailableIdle") {
            Some(Availability::AvailableIdle)
        } else if same_text(&text, "Away") {
            Some(Availability::Away)
        } else if same_text(&text, "BeRightBack") {
            Some(Availability::BeRightBack)
        } else if same_text(&text, "Busy") {
            Some(Availability::Busy)
        } else if same_text(&text, "BusyIdle") {
            Some(Availability::BusyIdle)
        } else if same_text(&text, "DoNotDisturb") {
            Some(Availability::DoNotDisturb)
        } else if same_text(&text, "Offline") {
            Some(Availability::Offline)
        } else if same_text(&text, "PresenceUnknown") {
            Some(Availability::PresenceUnknown)
        } else {
            None
        }
    }

    /// Human-readable availability.
    pub fn label(&self) -> (r: &'static str)
        ensures
            r@ == availability_label(*self),
    {
        match self {
            Availability::Available => "Available",
            Availability::AvailableIdle => "Available (Idle)",
            Availability::Away => "Away from Computer",
            Availability::BeRightBack => "Be Right Back",
            Availability::Busy => "Busy",
            Availability::BusyIdle => "Busy (Idle)",
            Availability::DoNotDisturb => "Do Not Disturb",
            Availability::Offline => "Offline",
            Availability::PresenceUnknown => "Dono",
        }
    }
}

impl Activity {
    /// The variant that the upstream service names `name`.
    pub fn from_name(name: &str) -> (r: Option<Activity>)
        ensures
            match r {
                Some(a) => activity_name(a) == name@,
                None => forall|a: Activity| #[trigger] activity_name(a) != name@,
            },
    {
        let text = String::from_str(name);
        if same_text(&text, "Available") {
            Some(Activity::Available)
        } else if same_text(&text, "Away") {
            Some(Activity::Away)
        } else if same_text(&text, "BeRightBack") {
            Some(Activity::BeRightBack)
        } else if same_text(&text, "Busy") {
            Some(Activity::Busy)
        } else if same_text(&text, "DoNotDisturb") {
            Some(Activity::DoNotDisturb)
        } else if same_text(&text, "InACall") {
            Some(Activity::InACall)
        } else if same_text(&text, "InAConferenceCall") {
            Some(Activity::InAConferenceCall)
        } else if same_text(&text, "Inactive") {
            Some(Activity::Inactive)
        } else if same_text(&text, "InAMeeting") {
            Some(Activity::InAMeeting)
        } else if same_text(&text, "Offline") {
            Some(Activity::Offline)
        } else if same_text(&text, "OffWork") {
            Some(Activity::OffWork)
        } else if same_text(&text, "OutOfOffice") {
            Some(Activity::OutOfOffice)
        } else if same_text(&text, "PresenceUnknown") {
            Some(Activity::PresenceUnknown)
        } else if same_text(&text, "Presenting") {
            Some(Activity::Presenting)
        } else if same_text(&text, "UrgentInterruptionsOnly") {
            Some(Activity::UrgentInterruptionsOnly)
        } else {
            None
        }
    }

    /// Human-readable activity.
    pub fn label(&self) -> (r: &'static str)
        ensures
            r@ == activity_label(*self),
    {
        match self {
            Activity::Available => "Available",
            Activity::Away => "Away",
            Activity::BeRightBack => "Be Right Back",
            Activity::Busy => "Busy",
            Activity::DoNotDisturb => "Do Not Disturb",
            Activity::InACall => "In a Call",
            Activity::InAConferenceCall => "In a Conference Call",
            Activity::Inactive => "Inactive",
            Activity::InAMeeting => "In a Meeting",
            Activity::Offline => "Offline",
            Activity::OffWork => "Off Work!",
            Activity::OutOfOffice => "Out of Office!",
            Activity::PresenceUnknown => "Presence Unknown ??",
            Activity::Presenting => "Presenting",
            Activity::UrgentInterruptionsOnly => "Urgent Interruptions ONLY",
        }
    }
}


impl Event {
    /// An event from its parts.
    pub fn new(subject: String, start: i64, end: i64, attendee_count: usize) -> (r: Event)
        ensures
            r.subject == subject,
            r.start == start,
            r.end == end,
            r.attendee_count == attendee_count,
    {
        Event { subject, start, end, attendee_count }
    }

    /// An event from the upstream service's fields: the start and end times
    /// are naive timestamps (`%Y-%m-%dT%H:%M:%S%.f`) read as UTC.
    pub fn from_graph(subject: String, start: &str, end: &str, attendee_count: usize) -> (r:
        Result<Event, DateTimeParseError>)
        ensures
            naive_utc_millis(start@, graph_pattern()) is None ==> r == Err::<Event, _>(
                DateTimeParseError::Start,
            ),
            naive_utc_millis(start@, graph_pattern()) is Some && naive_utc_millis(
                end@,
                graph_pattern(),
            ) is None ==> r == Err::<Event, _>(DateTimeParseError::End),
            r is Ok <==> (naive_utc_millis(start@, graph_pattern()) is Some && naive_utc_millis(
                end@,
                graph_pattern(),
            ) is Some),
            r is Ok ==> ({
                let e = r->Ok_0;
                &&& e.subject == subject
                &&& e.start == naive_utc_millis(start@, graph_pattern())->0
                &&& e.end == naive_utc_millis(end@, graph_pattern())->0
                &&& e.attendee_count == attendee_count
            }),
    {
        let start = match parse_graph_datetime(start) {
            Some(ms) => ms,
            None => return Err(DateTimeParseError::Start),
        };
        let end = match parse_graph_datetime(end) {
            Some(ms) => ms,
            None => return Err(DateTimeParseError::End),
        };
        Ok(Event { subject, start, end, attendee_count })
    }
}

/// The upstream fields of one event: subject, start text, end text and
/// attendee count.
pub type GraphEvent = (String, String, String, usize);

/// Why the event with upstream fields `item` cannot be read, if it cannot.
pub open spec fn graph_event_error(item: GraphEvent) -> Option<DateTimeParseError> {
    if naive_utc_millis(item.1@, graph_pattern()) is None {
        Some(DateTimeParseError::Start)
    } else if naive_utc_millis(item.2@, graph_pattern()) is None {
        Some(DateTimeParseError::End)
    } else {
        None
    }
}

/// `e` is the event read from the upstream fields `item`.
pub open spec fn read_from_graph(e: Event, item: GraphEvent) -> bool {
    &&& e.subject@ == item.0@
    &&& e.start == naive_utc_millis(item.1@, graph_pattern())->0
    &&& e.end == naive_utc_millis(item.2@, graph_pattern())->0
    &&& e.attendee_count == item.3
}

impl CalendarView {
    /// The calendar read from the upstream events, in their order. It fails,
    /// with the error of the first unreadable event, unless every event's
    /// start and end times can be read.
    pub fn from_graph(items: Vec<GraphEvent>) -> (r: Result<CalendarView, DateTimeParseError>)
        ensures
            r is Ok <==> forall|i: int|
                0 <= i < items@.len() ==> #[trigger] graph_event_error(items@[i]) is None,
            r is Ok ==> r->Ok_0.value@.len() == items@.len() && forall|i: int|
                0 <= i < items@.len() ==> read_from_graph(#[trigger] r->Ok_0.value@[i], items@[i]),
            r is Err ==> exists|i: int|
                {
                    &&& 0 <= i < items@.len()
                    &&& forall|j: int| 0 <= j < i ==> #[trigger] graph_event_error(items@[j]) is None
                    &&& #[trigger] graph_event_error(items@[i]) == Some(r->Err_0)
                },
    {
        let mut value: Vec<Event> = Vec::new();
        let mut i: usize = 0;
        while i < items.len()
            invariant
                i <= items@.len(),
                value@.len() == i,
                forall|j: int| 0 <= j < i ==> #[trigger] graph_event_error(items@[j]) is None,
                forall|j: int| 0 <= j < i ==> read_from_graph(#[trigger] value@[j], items@[j]),
            decreases items@.len() - i,
        {
            let item = &items[i];
            match Event::from_graph(item.0.clone(), item.1.as_str(), item.2.as_str(), item.3) {
                Ok(e) => {
                    value.push(e);
                },
                Err(err) => {
                    assert(graph_event_error(items@[i as int]) == Some(err));
                    return Err(err);
                },
            }
            i = i + 1;
        }
        Ok(CalendarView { value })
    }
}

/// Reads one of the upstream service's naive timestamps as a UTC instant.
pub fn parse_graph_datetime(text: &str) -> (r: Option<i64>)
    ensures
        r == naive_utc_millis(text@, graph_pattern()),
{
    parse_naive_utc(text, "%Y-%m-%dT%H:%M:%S%.f")
}

/// Index of the first event, in list order, whose end lies after `now`.
pub fn find_next_event(events: &Vec<Event>, now: i64) -> (r: Option<usize>)
    ensures
        match r {
            Some(i) => i < events@.len() && next_event(events@, now as int) == Some(events@[i as int]),
            None => next_event(events@, now as int) is None,
        },
{
    let mut i: usize = 0;
    assert(events@.subrange(0, events@.len() as int) =~= events@);
    while i < events.len()
        invariant
            i <= events@.len(),
            next_event(events@, now as int) == next_event(events@.subrange(i as int, events@.len() as int), now as int),
        decreases events@.len() - i,
    {
        proof {
            let rest = events@.subrange(i as int, events@.len() as int);
            assert(rest.drop_first() =~= events@.subrange(i + 1, events@.len() as int));
            assert(rest[0] == events@[i as int]);
        }
        if events[i].end > now {
            return Some(i);
        }
        i = i + 1;
    }
    assert(events@.subrange(i as int, events@.len() as int).len() == 0);
    None
}

impl Status {
    /// `self` is what `presence` and `calendar` give at the instant `now`:
    /// the presence, and the first event not yet ended, or empty and zero
    /// values where there is none.
    pub open spec fn derives(self, presence: Presence, calendar: CalendarView, now: int) -> bool {
        &&& self.availability == presence.availability
        &&& self.activity == presence.activity
        &&& match next_event(calendar.value@, now) {
            Some(e) => {
                &&& self.event_start == e.start
                &&& self.event_end == e.end
                &&& self.event_subject@ == e.subject@
                &&& self.event_attendee_count == e.attendee_count
            },
            None => {
                &&& self.event_start == 0
                &&& self.event_end == 0
                &&& self.event_subject@ == Seq::<char>::empty()
                &&& self.event_attendee_count == 0
            },
        }
    }

    /// The chosen event is in progress at `now`.
    pub open spec fn busy_at(self, now: int) -> bool {
        self.event_start < now < self.event_end
    }

    /// The user is marked away while the chosen event is in progress.
    pub open spec fn late_at(self, now: int) -> bool {
        self.busy_at(now) && self.availability == Availability::Away
    }

    /// The display colour at `now`.
    pub open spec fn color_at(self, now: int) -> ScreenColor {
        if self.late_at(now) {
            ScreenColor::Late
        } else {
            base_color(self.availability)
        }
    }

    /// The status at the instant `now`.
    pub fn new_at(presence: &Presence, calendar: &CalendarView, now: i64) -> (r: Status)
        ensures
            r.derives(*presence, *calendar, now as int),
    {
        match find_next_event(&calendar.value, now) {
            Some(i) => {
                let e = &calendar.value[i];
                Status {
                    availability: presence.availability,
                    activity: presence.activity,
                    event_start: e.start,
                    event_end: e.end,
                    event_subject: e.subject.clone(),
                    event_attendee_count: e.attendee_count,
                }
            },
            None => Status {
                availability: presence.availability,
                activity: presence.activity,
                event_start: 0,
                event_end: 0,
                event_subject: String::new(),
                event_attendee_count: 0,
            },
        }
    }

    /// The status now, by the wall clock.
    pub fn new(presence: &Presence, calendar: &CalendarView) -> (r: Status)
        ensures
            exists|now: i64| r.derives(*presence, *calendar, now as int),
    {
        let now = now_millis();
        Status::new_at(presence, calendar, now)
    }

    /// Whether the chosen event is in progress at `now`.
    pub fn is_busy_at(&self, now: i64) -> (r: bool)
        ensures
            r == self.busy_at(now as int),
    {
        self.event_start < now && now < self.event_end
    }

    /// Whether the user is marked away during the event in progress at `now`.
    pub fn is_late_at(&self, now: i64) -> (r: bool)
        ensures
            r == self.late_at(now as int),
    {
        self.is_busy_at(now) && self.availability == Availability::Away
    }

    /// The display colour at `now`.
    pub fn color_at_time(&self, now: i64) -> (r: ScreenColor)
        ensures
            r == self.color_at(now as int),
    {
        if self.is_late_at(now) {
            ScreenColor::Late
        } else {
            self.availability.color()
        }
    }

    /// Whether the chosen event is in progress now, by the wall clock.
    pub fn is_busy(&self) -> (r: bool)
        ensures
            exists|now: i64| r == #[trigger] self.busy_at(now as int),
    {
        let now = now_millis();
        let r = self.is_busy_at(now);
        assert(r == self.busy_at(now as int));
        r
    }

    /// Whether the user is marked away during an event in progress now, by
    /// the wall clock.
    pub fn is_late(&self) -> (r: bool)
        ensures
            exists|now: i64| r == #[trigger] self.late_at(now as int),
    {
        let now = now_millis();
        let r = self.is_late_at(now);
        assert(r == self.late_at(now as int));
        r
    }

    /// The colour segment of the display path now, by the wall clock:
    /// `late` only for a user marked away while the event is in progress,
    /// else the availability's fixed colour.
    pub fn screen_color(&self) -> (r: String)
        ensures
            exists|now: i64| r@ == color_name(#[trigger] self.color_at(now as int)),
            r@ == color_name(ScreenColor::Late) || r@ == color_name(base_color(self.availability)),
            r@ == color_name(ScreenColor::Late) ==> self.availability == Availability::Away,
    {
        let now = now_millis();
        let c = self.color_at_time(now);
        proof {
            lemma_color_names_distinct(c, ScreenColor::Late);
        }
        let r = String::from_str(c.name());
        assert(r@ == color_name(self.color_at(now as int)));
        r
    }
}

/// The upstream resource with the user's presence.
pub const PRESENCE_URL: &'static str = "https://graph.microsoft.com/v1.0/me/presence";

/// One week, in milliseconds: the span of the calendar that is fetched.
pub const WEEK_MILLIS: i64 = 604_800_000;

/// Width of the display's first line, in characters.
pub const CLOCK_WIDTH: usize = 28;

/// The path of the display device's graceful-shutdown screen.
pub open spec fn graceful_shutdown_path() -> Seq<char> {
    "yellow?line3=  Good bye&line4=    for now..."@
}

/// The path of the display device's fatal-error screen.
pub open spec fn fatal_error_path() -> Seq<char> {
    "late?line2= FATAL ERROR!&line3=   FATAL ERROR!&line5=  We can't go on"@
}

/// The request that shows `path` on the display device at `ip`.
pub open spec fn device_url(ip: Seq<char>, path: Seq<char>) -> Seq<char> {
    "http://"@ + ip + "/"@ + path
}

/// The calendar query for the events between the instants written as
/// `start` and `end`, ordered by start time.
pub open spec fn calendar_url(start: Seq<char>, end: Seq<char>) -> Seq<char> {
    "https://graph.microsoft.com/v1.0/me/calendarview?startDateTime="@ + start + "&endDateTime="@
        + end
        + "&$select=id,createdDateTime,lastModifiedDateTime,subject,start,end,attendees&$orderby=start/dateTime"@
}

/// The request that shows `path` on the display device at `ip`.
pub fn device_request_url(ip: &str, path: &str) -> (r: String)
    ensures
        r@ == device_url(ip@, path@),
{
    let mut r = String::from_str("http://");
    r.append(ip);
    r.append("/");
    r.append(path);
    r
}

/// The request that puts the display device at `ip` on its goodbye screen.
pub fn graceful_shutdown_url(ip: &str) -> (r: String)
    ensures
        r@ == device_url(ip@, graceful_shutdown_path()),
{
    device_request_url(ip, "yellow?line3=  Good bye&line4=    for now...")
}

/// The request that puts the display device at `ip` on its fatal-error screen.
pub fn fatal_error_url(ip: &str) -> (r: String)
    ensures
        r@ == device_url(ip@, fatal_error_path()),
{
    device_request_url(ip, "late?line2= FATAL ERROR!&line3=   FATAL ERROR!&line5=  We can't go on")
}

/// The calendar query for the week that starts at the instant `now`; `None`
/// where that week or its dates lie outside the range of instants.
pub fn calendar_view_url(now: i64) -> (r: Option<String>)
    ensures
        r is Some <==> ({
            &&& now + WEEK_MILLIS <= i64::MAX
            &&& utc_formatted(now, "%Y-%m-%dT%H:%M:%S"@) is Some
            &&& utc_formatted((now + WEEK_MILLIS) as i64, "%Y-%m-%d"@) is Some
        }),
        r is Some ==> r->0@ == calendar_url(
            utc_formatted(now, "%Y-%m-%dT%H:%M:%S"@)->0,
            utc_formatted((now + WEEK_MILLIS) as i64, "%Y-%m-%d"@)->0,
        ),
{
    if now > i64::MAX - WEEK_MILLIS {
        return None;
    }
    let soon = now + WEEK_MILLIS;
    let start = match format_utc(now, "%Y-%m-%dT%H:%M:%S") {
        Some(t) => t,
        None => return None,
    };
    let end = match format_utc(soon, "%Y-%m-%d") {
        Some(t) => t,
        None => return None,
    };
    let mut r = String::from_str("https://graph.microsoft.com/v1.0/me/calendarview?startDateTime=");
    r.append(start.as_str());
    r.append("&endDateTime=");
    r.append(end.as_str());
    r.append("&$select=id,createdDateTime,lastModifiedDateTime,subject,start,end,attendees&$orderby=start/dateTime");
    Some(r)
}

/// The clock text (`%I:%M %P`) of the UTC instant `ms` in a zone
/// `offset` seconds from UTC: the UTC text of the shifted instant. Empty
/// where the offset is unknown or the shifted instant is out of range.
pub open spec fn local_text(ms: i64, offset: Option<i32>) -> Seq<char> {
    match offset {
        Some(o) => {
            let shifted = ms + o * 1000;
            if i64::MIN <= shifted <= i64::MAX {
                match utc_formatted(shifted as i64, "%I:%M %P"@) {
                    Some(t) => t,
                    None => Seq::<char>::empty(),
                }
            } else {
                Seq::<char>::empty()
            }
        },
        None => Seq::<char>::empty(),
    }
}

/// The clock text of the instant `ms` in a zone `offset` seconds from UTC.
pub fn local_clock_text(ms: i64, offset: Option<i32>) -> (r: String)
    ensures
        r@ == local_text(ms, offset),
{
    match offset {
        Some(o) => {
            let shift = o as i64 * 1000;
            if (shift > 0 && ms > i64::MAX - shift) || (shift < 0 && ms < i64::MIN - shift) {
                String::new()
            } else {
                text_or_empty(format_utc(ms + shift, "%I:%M %P"))
            }
        },
        None => String::new(),
    }
}

fn text_or_empty(t: Option<String>) -> (r: String)
    ensures
        r@ == match t {
            Some(s) => s@,
            None => Seq::<char>::empty(),
        },
{
    match t {
        Some(s) => s,
        None => String::new(),
    }
}

impl Status {
    /// First line: the clock, right-aligned.
    pub open spec fn line1_text(clock: Seq<char>) -> Seq<char> {
        pad_left(clock, CLOCK_WIDTH as nat)
    }

    /// Second line: the availability.
    pub open spec fn line2_text(self) -> Seq<char> {
        " "@ + availability_label(self.availability)
    }

    /// Third line: the activity, in parentheses.
    pub open spec fn line3_text(self) -> Seq<char> {
        " ("@ + activity_label(self.activity) + ")"@
    }

    /// Fifth line: whether the event is in progress, or else its date.
    pub open spec fn line5_text(self, now: int, date: Seq<char>) -> Seq<char> {
        if self.busy_at(now) {
            " Event goes until:"@
        } else {
            " Next Event ("@ + date + "):"@
        }
    }

    /// Sixth line: the relevant time of the event and its subject.
    pub open spec fn line6_text(self, time: Seq<char>) -> Seq<char> {
        "  "@ + time + " ("@ + self.event_subject@ + ")"@
    }

    /// Seventh line: the number of attendees.
    pub open spec fn line7_text(self) -> Seq<char> {
        "  "@ + decimal(self.event_attendee_count as nat) + " attendees"@
    }

    /// The display path at `now`, given the clock text, the text of the
    /// event's relevant time and the text of its date.
    pub open spec fn rendered(self, now: int, clock: Seq<char>, time: Seq<char>, date: Seq<char>) -> Seq<
        char,
    > {
        color_name(self.color_at(now)) + "?line1="@ + Status::line1_text(clock) + "&line2="@
            + self.line2_text() + "&line3="@ + self.line3_text() + "&line5="@ + self.line5_text(
            now,
            date,
        ) + "&line6="@ + self.line6_text(time) + "&line7="@ + self.line7_text()
    }

    /// The event's start date (`%m/%d`, UTC) as the display shows it.
    pub open spec fn date_label(self) -> Seq<char> {
        match utc_formatted(self.event_start, "%m/%d"@) {
            Some(d) => d,
            None => Seq::<char>::empty(),
        }
    }

    fn line1(clock: &str) -> (r: String)
        ensures
            r@ == Status::line1_text(clock@),
    {
        pad_left_string(clock, CLOCK_WIDTH)
    }

    fn line2(&self) -> (r: String)
        ensures
            r@ == self.line2_text(),
    {
        let mut r = String::from_str(" ");
        r.append(self.availability.label());
        r
    }

    fn line3(&self) -> (r: String)
        ensures
            r@ == self.line3_text(),
    {
        let mut r = String::from_str(" (");
        r.append(self.activity.label());
        r.append(")");
        r
    }

    fn line5(&self, now: i64, date: &str) -> (r: String)
        ensures
            r@ == self.line5_text(now as int, date@),
    {
        if self.is_busy_at(now) {
            String::from_str(" Event goes until:")
        } else {
            let mut r = String::from_str(" Next Event (");
            r.append(date);
            r.append("):");
            r
        }
    }

    fn line6(&self, time: &str) -> (r: String)
        ensures
            r@ == self.line6_text(time@),
    {
        let mut r = String::from_str("  ");
        r.append(time);
        r.append(" (");
        r.append(self.event_subject.as_str());
        r.append(")");
        r
    }

    fn line7(&self) -> (r: String)
        ensures
            r@ == self.line7_text(),
    {
        let mut r = String::from_str("  ");
        let n = decimal_string(self.event_attendee_count as u64);
        r.append(n.as_str());
        r.append(" attendees");
        r
    }

    /// The display path at `now`, given the clock text, the text of the
    /// event's relevant time and the text of its date.
    pub fn uri_at(&self, now: i64, clock: &str, time: &str, date: &str) -> (r: String)
        ensures
            r@ == self.rendered(now as int, clock@, time@, date@),
    {
        let mut r = String::from_str(self.color_at_time(now).name());
        r.append("?line1=");
        r.append(Status::line1(clock).as_str());
        r.append("&line2=");
        r.append(self.line2().as_str());
        r.append("&line3=");
        r.append(self.line3().as_str());
        r.append("&line5=");
        r.append(self.line5(now, date).as_str());
        r.append("&line6=");
        r.append(self.line6(time).as_str());
        r.append("&line7=");
        r.append(self.line7().as_str());
        r
    }

    /// The instant whose time line 6 shows at `now`: the end of an event in
    /// progress, else the start.
    pub open spec fn shown_at(self, now: int) -> i64 {
        if self.busy_at(now) {
            self.event_end
        } else {
            self.event_start
        }
    }

    /// The instant whose time line 6 shows at `now`.
    pub fn shown_instant(&self, now: i64) -> (r: i64)
        ensures
            r == self.shown_at(now as int),
    {
        if self.is_busy_at(now) {
            self.event_end
        } else {
            self.event_start
        }
    }

    /// The display path now, by the wall clock: the clock and the shown time
    /// of the event are written in the machine's local time, each with the
    /// zone offset that holds at its instant.
    pub fn uri(&self) -> (r: String)
        ensures
            exists|now: i64, clock_offset: Option<i32>, shown_offset: Option<i32>|
                r@ == #[trigger] self.rendered(
                    now as int,
                    local_text(now, clock_offset),
                    local_text(self.shown_at(now as int), shown_offset),
                    self.date_label(),
                ),
    {
        let now = now_millis();
        let clock_offset = local_offset_secs(now);
        let clock = local_clock_text(now, clock_offset);
        let shown = self.shown_instant(now);
        let shown_offset = local_offset_secs(shown);
        let time = local_clock_text(shown, shown_offset);
        let date = text_or_empty(format_utc(self.event_start, "%m/%d"));
        let r = self.uri_at(now, clock.as_str(), time.as_str(), date.as_str());
        assert(r@ == self.rendered(
            now as int,
            local_text(now, clock_offset),
            local_text(self.shown_at(now as int), shown_offset),
            self.date_label(),
        ));
        r
    }
}

/// Each availability has one of green, yellow and red as its colour, by the
/// fixed mapping; the display shows `late` exactly when the user is marked
/// away while the chosen event is in progress (strictly between its start and
/// end), and otherwise the availability's colour.
pub proof fn lemma_screen_color(s: Status, now: int)
    ensures
        base_color(s.availability) != ScreenColor::Late,
        base_color(s.availability) == ScreenColor::Green <==> s.availability
            == Availability::Available,
        base_color(s.availability) == ScreenColor::Red <==> (s.availability == Availability::Busy
            || s.availability == Availability::BusyIdle || s.availability
            == Availability::DoNotDisturb),
        s.color_at(now) == ScreenColor::Late <==> (s.availability == Availability::Away
            && s.event_start < now < s.event_end),
        s.color_at(now) != ScreenColor::Late ==> s.color_at(now) == base_color(s.availability),
{
}

/// For every calendar, the status derived at `now` carries the first event, in
/// list order, whose end lies after `now`; where there is none, its event
/// fields are empty and zero, with no attendees.
pub proof fn lemma_derived_event(s: Status, p: Presence, c: CalendarView, now: int)
    requires
        s.derives(p, c, now),
    ensures
        (exists|i: int|
            {
                &&& 0 <= i < c.value@.len()
                &&& c.value@[i].end > now
                &&& (forall|j: int| 0 <= j < i ==> #[trigger] c.value@[j].end <= now)
                &&& s.event_start == c.value@[i].start
                &&& s.event_end == c.value@[i].end
                &&& s.event_subject@ == c.value@[i].subject@
                &&& s.event_attendee_count == c.value@[i].attendee_count
            }) || ({
            &&& forall|j: int| 0 <= j < c.value@.len() ==> #[trigger] c.value@[j].end <= now
            &&& s.event_start == 0
            &&& s.event_end == 0
            &&& s.event_subject@.len() == 0
            &&& s.event_attendee_count == 0
        }),
{
    lemma_next_event_first(c.value@, now);
}

/// `next_event` is the first event, in list order, that ends after `now`.
pub proof fn lemma_next_event_first(events: Seq<Event>, now: int)
    ensures
        match next_event(events, now) {
            Some(e) => exists|i: int|
                {
                    &&& 0 <= i < events.len()
                    &&& #[trigger] events[i] == e
                    &&& e.end > now
                    &&& forall|j: int| 0 <= j < i ==> #[trigger] events[j].end <= now
                },
            None => forall|j: int| 0 <= j < events.len() ==> #[trigger] events[j].end <= now,
        },
    decreases events.len(),
{
    if events.len() == 0 {
    } else if events[0].end > now {
    } else {
        let rest = events.drop_first();
        lemma_next_event_first(rest, now);
        match next_event(rest, now) {
            Some(e) => {
                let i = choose|i: int|
                    {
                        &&& 0 <= i < rest.len()
                        &&& #[trigger] rest[i] == e
                        &&& e.end > now
                        &&& forall|j: int| 0 <= j < i ==> #[trigger] rest[j].end <= now
                    };
                assert(events[i + 1] == e);
                assert forall|j: int| 0 <= j < i + 1 implies #[trigger] events[j].end <= now by {
                    if j > 0 {
                        assert(events[j] == rest[j - 1]);
                    }
                }
            },
            None => {
                assert forall|j: int| 0 <= j < events.len() implies #[trigger] events[j].end
                    <= now by {
                    if j > 0 {
                        assert(events[j] == rest[j - 1]);
                    }
                }
            },
        }
    }
}

/// Rendering depends on nothing but the status and the formatted time fields:
/// two statuses with the same contents, pushed with the same clock, time and
/// date texts, give the same request to the display device.
pub proof fn lemma_render_repeatable(
    s1: Status,
    s2: Status,
    ip: Seq<char>,
    now: int,
    clock: Seq<char>,
    time: Seq<char>,
    date: Seq<char>,
)
    requires
        s1.availability == s2.availability,
        s1.activity == s2.activity,
        s1.event_start == s2.event_start,
        s1.event_end == s2.event_end,
        s1.event_subject@ == s2.event_subject@,
        s1.event_attendee_count == s2.event_attendee_count,
    ensures
        device_url(ip, s1.rendered(now, clock, time, date)) == device_url(
            ip,
            s2.rendered(now, clock, time, date),
        ),
{
}

} // verus!
