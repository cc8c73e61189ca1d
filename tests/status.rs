use chrono::{DateTime, Duration, Local, Utc};
use pico_status::status::{
    calendar_view_url, device_request_url, fatal_error_url, find_next_event, graceful_shutdown_url,
    local_clock_text, parse_graph_datetime, Activity, Availability, CalendarView, DateTimeParseError, Event,
    Presence, ScreenColor, Status,
};

fn build_presence(availability: Availability, activity: Activity) -> Presence {
    Presence {
        id: String::from("id123"),
        availability,
        activity,
    }
}

fn build_future_cal_event(subject: &str) -> (Event, DateTime<Local>, DateTime<Local>) {
    let now = Utc::now();
    let start = now + Duration::hours(1);
    let end = start + Duration::hours(1);
    (
        Event::new(subject.into(), start.timestamp_millis(), end.timestamp_millis(), 1),
        DateTime::from(start),
        DateTime::from(end),
    )
}

fn build_current_cal_event(subject: &str) -> (Event, DateTime<Local>, DateTime<Local>) {
    let now = Utc::now();
    let start = now - Duration::minutes(10);
    let end = start + Duration::hours(1);
    (
        Event::new(subject.into(), start.timestamp_millis(), end.timestamp_millis(), 1),
        DateTime::from(start),
        DateTime::from(end),
    )
}

#[test]
fn test_uri_availabile_future_event() {
    let presence = build_presence(Availability::Available, Activity::Available);
    let (future_event, next_start, _) = build_future_cal_event("Test One");
    let calendar = CalendarView {
        value: vec![future_event.clone()],
    };

    let status = Status::new(&presence, &calendar);
    println!("{:?}", status.uri());

    assert!(!status.is_busy());
    assert_eq!(
        status.uri(),
        format!(
            "{}?line1={:>28}&line2= {}&line3= ({})&line5= Next Event ({}):&line6=  {} ({})&line7=  {} attendees",
            "green",
            Local::now().format("%I:%M %P"),
            "Available",
            "Available",
            next_start.format("%m/%d"),
            next_start.format("%I:%M %P"),
            future_event.subject,
            future_event.attendee_count
        )
    );
}

#[test]
fn test_uri_busy_curr_event() {
    let presence = build_presence(Availability::Busy, Activity::InACall);
    let (event, _, end) = build_current_cal_event("Current Events");
    let cal = CalendarView {
        value: vec![event.clone()],
    };

    let status = Status::new(&presence, &cal);
    println!("{:?}", status.uri());
    assert!(status.is_busy());

    assert_eq!(
        status.uri(),
        format!(
            "{}?line1={:>28}&line2= {}&line3= ({})&line5= Event goes until:&line6=  {} ({})&line7=  {} attendees",
            "red",
            Local::now().format("%I:%M %P"),
            "Busy",
            "In a Call",
            end.format("%I:%M %P"),
            event.subject,
            event.attendee_count
        )
    );
}

#[test]
fn test_uri_late_for_event() {
    let presence = build_presence(Availability::Away, Activity::Away);
    let (event, _, end) = build_current_cal_event("Current Events");
    let cal = CalendarView {
        value: vec![event.clone()],
    };

    let status = Status::new(&presence, &cal);
    println!("{:?}", status.uri());
    assert!(status.is_busy());
    assert!(status.is_late());

    assert_eq!(
        status.uri(),
        format!(
            "{}?line1={:>28}&line2= {}&line3= ({})&line5= Event goes until:&line6=  {} ({})&line7=  {} attendees",
            "late",
            Local::now().format("%I:%M %P"),
            "Away from Computer",
            "Away",
            end.format("%I:%M %P"),
            event.subject,
            event.attendee_count
        )
    );
}

const NOW: i64 = 1_709_288_130_123; // 2024-03-01T10:15:30.123Z
const MINUTE: i64 = 60_000;

fn event(subject: &str, start: i64, end: i64, attendees: usize) -> Event {
    Event::new(subject.to_string(), start, end, attendees)
}

#[test]
fn available_without_events_shows_defaults() {
    let presence = build_presence(Availability::Available, Activity::Available);
    let calendar = CalendarView { value: vec![] };
    let status = Status::new_at(&presence, &calendar, NOW);
    assert_eq!(status.event_start, 0);
    assert_eq!(status.event_end, 0);
    assert_eq!(status.event_subject, "");
    assert_eq!(status.event_attendee_count, 0);
    assert!(!status.is_busy_at(NOW));
    assert_eq!(status.color_at_time(NOW), ScreenColor::Green);
    assert_eq!(
        status.uri_at(NOW, "10:15 am", "12:00 am", "01/01"),
        "green?line1=                    10:15 am&line2= Available&line3= (Available)&line5= Next Event (01/01):&line6=  12:00 am ()&line7=  0 attendees"
    );
}

#[test]
fn busy_in_call_during_standup() {
    let presence = build_presence(Availability::Busy, Activity::InACall);
    let calendar = CalendarView {
        value: vec![event("Standup", NOW - 10 * MINUTE, NOW + 50 * MINUTE, 3)],
    };
    let status = Status::new_at(&presence, &calendar, NOW);
    assert!(status.is_busy_at(NOW));
    assert!(!status.is_late_at(NOW));
    assert_eq!(status.color_at_time(NOW), ScreenColor::Red);
    assert_eq!(
        status.uri_at(NOW, "10:15 am", "11:05 am", "03/01"),
        "red?line1=                    10:15 am&line2= Busy&line3= (In a Call)&line5= Event goes until:&line6=  11:05 am (Standup)&line7=  3 attendees"
    );
}

#[test]
fn away_during_meeting_is_late() {
    let presence = build_presence(Availability::Away, Activity::Away);
    let calendar = CalendarView {
        value: vec![event("Standup", NOW - 10 * MINUTE, NOW + 50 * MINUTE, 3)],
    };
    let status = Status::new_at(&presence, &calendar, NOW);
    assert_eq!(Availability::Away.color(), ScreenColor::Yellow);
    assert!(status.is_late_at(NOW));
    assert_eq!(status.color_at_time(NOW), ScreenColor::Late);
    assert!(status
        .uri_at(NOW, "10:15 am", "11:05 am", "03/01")
        .starts_with("late?line1="));
}

#[test]
fn away_outside_meeting_is_yellow() {
    let presence = build_presence(Availability::Away, Activity::Away);
    let calendar = CalendarView {
        value: vec![event("Later", NOW + 10 * MINUTE, NOW + 50 * MINUTE, 2)],
    };
    let status = Status::new_at(&presence, &calendar, NOW);
    assert!(!status.is_late_at(NOW));
    assert_eq!(status.color_at_time(NOW), ScreenColor::Yellow);
    // at the very start of the event it is not yet in progress
    assert!(!status.is_busy_at(NOW + 10 * MINUTE));
    assert!(status.is_busy_at(NOW + 10 * MINUTE + 1));
    assert!(!status.is_busy_at(NOW + 50 * MINUTE));
}

#[test]
fn colors_follow_the_fixed_mapping() {
    let cases = [
        (Availability::Available, ScreenColor::Green, "green"),
        (Availability::AvailableIdle, ScreenColor::Yellow, "yellow"),
        (Availability::Away, ScreenColor::Yellow, "yellow"),
        (Availability::BeRightBack, ScreenColor::Yellow, "yellow"),
        (Availability::Offline, ScreenColor::Yellow, "yellow"),
        (Availability::PresenceUnknown, ScreenColor::Yellow, "yellow"),
        (Availability::Busy, ScreenColor::Red, "red"),
        (Availability::BusyIdle, ScreenColor::Red, "red"),
        (Availability::DoNotDisturb, ScreenColor::Red, "red"),
    ];
    for (availability, color, name) in cases {
        assert_eq!(availability.color(), color);
        assert_eq!(color.name(), name);
        let presence = build_presence(availability, Activity::Available);
        let status = Status::new_at(&presence, &CalendarView { value: vec![] }, NOW);
        assert_eq!(status.color_at_time(NOW), color);
    }
    assert_eq!(ScreenColor::Late.name(), "late");
}

#[test]
fn labels_are_human_readable() {
    assert_eq!(Availability::AvailableIdle.label(), "Available (Idle)");
    assert_eq!(Availability::PresenceUnknown.label(), "Dono");
    assert_eq!(Activity::OffWork.label(), "Off Work!");
    assert_eq!(Activity::UrgentInterruptionsOnly.label(), "Urgent Interruptions ONLY");
}

#[test]
fn next_event_is_first_not_yet_ended() {
    let events = vec![
        event("Done", NOW - 60 * MINUTE, NOW - 30 * MINUTE, 4),
        event("Ends now", NOW - 30 * MINUTE, NOW, 1),
        event("Running", NOW - 5 * MINUTE, NOW + 25 * MINUTE, 2),
        event("Later", NOW + 60 * MINUTE, NOW + 90 * MINUTE, 5),
    ];
    assert_eq!(find_next_event(&events, NOW), Some(2));
    assert_eq!(find_next_event(&events, NOW + 30 * MINUTE), Some(3));
    assert_eq!(find_next_event(&events, NOW + 90 * MINUTE), None);
    assert_eq!(find_next_event(&vec![], NOW), None);

    let presence = build_presence(Availability::Busy, Activity::InAMeeting);
    let status = Status::new_at(&presence, &CalendarView { value: events }, NOW);
    assert_eq!(status.event_subject, "Running");
    assert_eq!(status.event_start, NOW - 5 * MINUTE);
    assert_eq!(status.event_end, NOW + 25 * MINUTE);
    assert_eq!(status.event_attendee_count, 2);
}

#[test]
fn all_events_ended_gives_defaults() {
    let events = vec![event("Done", NOW - 60 * MINUTE, NOW - 30 * MINUTE, 4)];
    let presence = build_presence(Availability::Offline, Activity::OffWork);
    let status = Status::new_at(&presence, &CalendarView { value: events }, NOW);
    assert_eq!(status.event_subject, "");
    assert_eq!(status.event_start, 0);
    assert_eq!(status.event_end, 0);
    assert_eq!(status.event_attendee_count, 0);
}

#[test]
fn same_status_renders_same_request() {
    let presence = build_presence(Availability::DoNotDisturb, Activity::Presenting);
    let calendar = CalendarView {
        value: vec![event("Demo", NOW + MINUTE, NOW + 61 * MINUTE, 12)],
    };
    let status = Status::new_at(&presence, &calendar, NOW);
    let copy = status.clone();
    let first = device_request_url("192.168.1.20", &status.uri_at(NOW, "10:15 am", "10:16 am", "03/01"));
    let second = device_request_url("192.168.1.20", &copy.uri_at(NOW, "10:15 am", "10:16 am", "03/01"));
    assert_eq!(first, second);
    assert_eq!(
        first,
        "http://192.168.1.20/red?line1=                    10:15 am&line2= Do Not Disturb&line3= (Presenting)&line5= Next Event (03/01):&line6=  10:16 am (Demo)&line7=  12 attendees"
    );
}

#[test]
fn long_clock_text_is_not_padded() {
    let presence = build_presence(Availability::Available, Activity::Available);
    let status = Status::new_at(&presence, &CalendarView { value: vec![] }, NOW);
    let clock = "a clock text of more than twenty-eight characters";
    let uri = status.uri_at(NOW, clock, "", "");
    assert!(uri.starts_with(&format!("green?line1={}&line2=", clock)));
}

#[test]
fn device_screens() {
    assert_eq!(
        fatal_error_url("10.0.0.7"),
        "http://10.0.0.7/late?line2= FATAL ERROR!&line3=   FATAL ERROR!&line5=  We can't go on"
    );
    assert_eq!(
        graceful_shutdown_url("10.0.0.7"),
        "http://10.0.0.7/yellow?line3=  Good bye&line4=    for now..."
    );
}

#[test]
fn graph_timestamps_parse_as_utc() {
    assert_eq!(parse_graph_datetime("2024-03-01T10:15:30.1234567"), Some(NOW));
    assert_eq!(parse_graph_datetime("2024-03-01T10:15:30"), Some(NOW - 123));
    assert_eq!(parse_graph_datetime(""), None);
    assert_eq!(parse_graph_datetime("2024-03-01 10:15:30"), None);
}

#[test]
fn events_from_graph_fields() {
    let e = Event::from_graph(
        "Planning".to_string(),
        "2024-03-01T10:15:30.1230000",
        "2024-03-01T11:15:30.1230000",
        3,
    )
    .unwrap();
    assert_eq!(e.subject, "Planning");
    assert_eq!(e.start, NOW);
    assert_eq!(e.end, NOW + 60 * MINUTE);
    assert_eq!(e.attendee_count, 3);
    assert_eq!(
        Event::from_graph("x".to_string(), "soon", "2024-03-01T11:15:30", 0).unwrap_err(),
        DateTimeParseError::Start
    );
    assert_eq!(
        Event::from_graph("x".to_string(), "2024-03-01T11:15:30", "", 0).unwrap_err(),
        DateTimeParseError::End
    );
}

#[test]
fn calendar_query_covers_one_week() {
    assert_eq!(
        calendar_view_url(NOW).unwrap(),
        "https://graph.microsoft.com/v1.0/me/calendarview?startDateTime=2024-03-01T10:15:30&endDateTime=2024-03-08&$select=id,createdDateTime,lastModifiedDateTime,subject,start,end,attendees&$orderby=start/dateTime"
    );
    assert_eq!(calendar_view_url(i64::MAX), None);
}

#[test]
fn upstream_names_parse_to_variants() {
    assert_eq!(Availability::from_name("BusyIdle"), Some(Availability::BusyIdle));
    assert_eq!(Availability::from_name("PresenceUnknown"), Some(Availability::PresenceUnknown));
    assert_eq!(Availability::from_name("busy"), None);
    assert_eq!(Availability::from_name(""), None);
    assert_eq!(Activity::from_name("InAConferenceCall"), Some(Activity::InAConferenceCall));
    assert_eq!(Activity::from_name("UrgentInterruptionsOnly"), Some(Activity::UrgentInterruptionsOnly));
    assert_eq!(Activity::from_name("In a Call"), None);
}

#[test]
fn shown_time_is_end_during_event_else_start() {
    let presence = build_presence(Availability::Busy, Activity::InACall);
    let calendar = CalendarView {
        value: vec![event("Standup", NOW - 10 * MINUTE, NOW + 50 * MINUTE, 3)],
    };
    let status = Status::new_at(&presence, &calendar, NOW);
    assert_eq!(status.shown_instant(NOW), NOW + 50 * MINUTE);
    assert_eq!(status.shown_instant(NOW - 20 * MINUTE), NOW - 10 * MINUTE);
    assert_eq!(status.shown_instant(NOW + 50 * MINUTE), NOW - 10 * MINUTE);
}

#[test]
fn local_clock_text_shifts_by_offset() {
    assert_eq!(local_clock_text(NOW, Some(0)), "10:15 am");
    assert_eq!(local_clock_text(NOW, Some(3600)), "11:15 am");
    assert_eq!(local_clock_text(NOW, Some(-11 * 3600)), "11:15 pm");
    assert_eq!(local_clock_text(NOW, None), "");
    assert_eq!(local_clock_text(i64::MAX, Some(3600)), "");
}

#[test]
fn calendar_from_graph_keeps_order_or_fails_on_first_bad_event() {
    let items = vec![
        ("A".to_string(), "2024-03-01T10:15:30.123".to_string(), "2024-03-01T11:15:30.123".to_string(), 2),
        ("B".to_string(), "2024-03-01T09:00:00".to_string(), "2024-03-01T09:30:00".to_string(), 0),
    ];
    let cal = CalendarView::from_graph(items).unwrap();
    assert_eq!(cal.value.len(), 2);
    assert_eq!(cal.value[0].subject, "A");
    assert_eq!(cal.value[0].start, NOW);
    assert_eq!(cal.value[0].attendee_count, 2);
    assert_eq!(cal.value[1].subject, "B");
    assert_eq!(cal.value[1].end, NOW - 45 * MINUTE - 30_123);

    let bad = vec![
        ("A".to_string(), "2024-03-01T10:15:30".to_string(), "later".to_string(), 1),
        ("B".to_string(), "never".to_string(), "2024-03-01T10:15:30".to_string(), 1),
    ];
    assert_eq!(CalendarView::from_graph(bad).unwrap_err(), DateTimeParseError::End);
    assert!(CalendarView::from_graph(vec![]).unwrap().value.is_empty());
}
