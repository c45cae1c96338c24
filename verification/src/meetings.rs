//! Meetings and the replies to their invitations, served from a fixed
//! sample until a store is connected.

use crate::clock::utc_now_rfc3339;
use crate::ids::random_uuid;
use crate::search::{first_index, lemma_filter_step, lemma_first_index_is, lemma_first_index_none};
use crate::text::{copy_text_opt, same_text, text_opt};
use vstd::prelude::*;

verus! {

pub struct Meeting {
    pub id: String,
    pub title: String,
    pub description: String,
    pub meeting_type: String,
    pub date: String,
    pub start_time: String,
    pub end_time: String,
    pub location: String,
    pub agenda: String,
    pub max_attendees: Option<u32>,
    pub created_by: String,
    pub created_at: String,
    pub summary: Option<String>,
    pub recording_url: Option<String>,
}

/// The mathematical value of a [`Meeting`].
pub struct MeetingView {
    pub id: Seq<char>,
    pub title: Seq<char>,
    pub description: Seq<char>,
    pub meeting_type: Seq<char>,
    pub date: Seq<char>,
    pub start_time: Seq<char>,
    pub end_time: Seq<char>,
    pub location: Seq<char>,
    pub agenda: Seq<char>,
    pub max_attendees: Option<u32>,
    pub created_by: Seq<char>,
    pub created_at: Seq<char>,
    pub summary: Option<Seq<char>>,
    pub recording_url: Option<Seq<char>>,
}

impl View for Meeting {
    type V = MeetingView;

    open spec fn view(&self) -> MeetingView {
        MeetingView {
            id: self.id@,
            title: self.title@,
            description: self.description@,
            meeting_type: self.meeting_type@,
            date: self.date@,
            start_time: self.start_time@,
            end_time: self.end_time@,
            location: self.location@,
            agenda: self.agenda@,
            max_attendees: self.max_attendees,
            created_by: self.created_by@,
            created_at: self.created_at@,
            summary: text_opt(self.summary),
            recording_url: text_opt(self.recording_url),
        }
    }
}

impl Clone for Meeting {
    fn clone(&self) -> (r: Self)
        ensures
            r == *self,
    {
        Meeting {
            id: self.id.clone(),
            title: self.title.clone(),
            description: self.description.clone(),
            meeting_type: self.meeting_type.clone(),
            date: self.date.clone(),
            start_time: self.start_time.clone(),
            end_time: self.end_time.clone(),
            location: self.location.clone(),
            agenda: self.agenda.clone(),
            max_attendees: self.max_attendees,
            created_by: self.created_by.clone(),
            created_at: self.created_at.clone(),
            summary: copy_text_opt(&self.summary),
            recording_url: copy_text_opt(&self.recording_url),
        }
    }
}

pub struct RSVP {
    pub id: String,
    pub meeting_id: String,
    pub user_id: String,
    pub user_name: String,
    pub user_email: String,
    pub status: String,
    pub rsvp_date: String,
}

/// The mathematical value of an [`RSVP`].
pub struct RsvpView {
    pub id: Seq<char>,
    pub meeting_id: Seq<char>,
    pub user_id: Seq<char>,
    pub user_name: Seq<char>,
    pub user_email: Seq<char>,
    pub status: Seq<char>,
    pub rsvp_date: Seq<char>,
}

impl View for RSVP {
    type V = RsvpView;

    open spec fn view(&self) -> RsvpView {
        RsvpView {
            id: self.id@,
            meeting_id: self.meeting_id@,
            user_id: self.user_id@,
            user_name: self.user_name@,
            user_email: self.user_email@,
            status: self.status@,
            rsvp_date: self.rsvp_date@,
        }
    }
}

impl Clone for RSVP {
    fn clone(&self) -> (r: Self)
        ensures
            r == *self,
    {
        RSVP {
            id: self.id.clone(),
            meeting_id: self.meeting_id.clone(),
            user_id: self.user_id.clone(),
            user_name: self.user_name.clone(),
            user_email: self.user_email.clone(),
            status: self.status.clone(),
            rsvp_date: self.rsvp_date.clone(),
        }
    }
}

pub struct CreateMeetingRequest {
    pub title: String,
    pub description: String,
    pub meeting_type: String,
    pub date: String,
    pub start_time: String,
    pub end_time: String,
    pub location: String,
    pub agenda: String,
    pub max_attendees: Option<u32>,
}

/// The changes to a meeting; a field that is absent stays as it is.
pub struct UpdateMeetingRequest {
    pub title: Option<String>,
    pub description: Option<String>,
    pub meeting_type: Option<String>,
    pub date: Option<String>,
    pub start_time: Option<String>,
    pub end_time: Option<String>,
    pub location: Option<String>,
    pub agenda: Option<String>,
    pub max_attendees: Option<u32>,
    pub summary: Option<String>,
    pub recording_url: Option<String>,
}

pub struct CreateRSVPRequest {
    pub status: String,
}

/// The first sample meeting.
pub open spec fn sample_meeting_1() -> MeetingView {
    MeetingView {
        id: "1"@,
        title: "Weekly Club Meeting"@,
        description: "Our regular weekly meeting to discuss club activities and upcoming events."@,
        meeting_type: "meeting"@,
        date: "2024-01-15"@,
        start_time: "18:00"@,
        end_time: "19:30"@,
        location: "Room 101, Student Center"@,
        agenda: "# Weekly Meeting Agenda\n\n## Topics\n1. Welcome new members\n2. Review last week's activities\n3. Plan upcoming events\n4. Q&A Session"@,
        max_attendees: Some(50),
        created_by: "admin"@,
        created_at: "2024-01-10T10:00:00Z"@,
        summary: None,
        recording_url: None,
    }
}

/// The second sample meeting.
pub open spec fn sample_meeting_2() -> MeetingView {
    MeetingView {
        id: "2"@,
        title: "Photography Workshop"@,
        description: "Learn the basics of digital photography with hands-on exercises."@,
        meeting_type: "workshop"@,
        date: "2024-01-20"@,
        start_time: "14:00"@,
        end_time: "17:00"@,
        location: "Art Building, Studio 2"@,
        agenda: "# Photography Workshop\n\n## Schedule\n- **2:00-2:30 PM**: Introduction to Camera Settings\n- **2:30-3:15 PM**: Composition Techniques\n- **3:15-3:30 PM**: Break\n- **3:30-4:30 PM**: Hands-on Practice\n- **4:30-5:00 PM**: Review and Feedback"@,
        max_attendees: Some(20),
        created_by: "admin"@,
        created_at: "2024-01-08T15:30:00Z"@,
        summary: None,
        recording_url: None,
    }
}

/// The third sample meeting.
pub open spec fn sample_meeting_3() -> MeetingView {
    MeetingView {
        id: "3"@,
        title: "Welcome Social Event"@,
        description: "A casual social gathering to welcome new members and build community."@,
        meeting_type: "social"@,
        date: "2024-01-25"@,
        start_time: "19:00"@,
        end_time: "22:00"@,
        location: "Student Lounge"@,
        agenda: "# Welcome Social\n\n## Activities\n- Icebreaker games\n- Food and refreshments\n- Group photos\n- Networking time"@,
        max_attendees: None,
        created_by: "admin"@,
        created_at: "2024-01-05T12:00:00Z"@,
        summary: None,
        recording_url: None,
    }
}

/// The sample meetings.
pub open spec fn sample_meetings() -> Seq<MeetingView> {
    seq![sample_meeting_1(), sample_meeting_2(), sample_meeting_3()]
}

/// The sample replies.
pub open spec fn sample_rsvps() -> Seq<RsvpView> {
    seq![
        RsvpView {
            id: "1"@,
            meeting_id: "1"@,
            user_id: "user1"@,
            user_name: "John Doe"@,
            user_email: "john@example.com"@,
            status: "attending"@,
            rsvp_date: "2024-01-12T10:00:00Z"@,
        },
        RsvpView {
            id: "2"@,
            meeting_id: "1"@,
            user_id: "user2"@,
            user_name: "Jane Smith"@,
            user_email: "jane@example.com"@,
            status: "maybe"@,
            rsvp_date: "2024-01-13T14:30:00Z"@,
        },
    ]
}

/// The values of a list of meetings.
pub open spec fn meeting_views(v: Seq<Meeting>) -> Seq<MeetingView> {
    v.map_values(|m: Meeting| m@)
}

/// The values of a list of replies.
pub open spec fn rsvp_views(v: Seq<RSVP>) -> Seq<RsvpView> {
    v.map_values(|r: RSVP| r@)
}

/// The predicate "has this id".
pub open spec fn meeting_with_id(id: Seq<char>) -> spec_fn(MeetingView) -> bool {
    |m: MeetingView| m.id == id
}

/// The predicate "answers this meeting".
pub open spec fn rsvp_for(meeting_id: Seq<char>) -> spec_fn(RsvpView) -> bool {
    |r: RsvpView| r.meeting_id == meeting_id
}

/// A text field after an update.
pub open spec fn updated_text(old: Seq<char>, new: Option<Seq<char>>) -> Seq<char> {
    match new {
        Some(t) => t,
        None => old,
    }
}

/// An optional field after an update: a value that is given replaces the
/// old one; the field cannot be cleared.
pub open spec fn updated_opt<T>(old: Option<T>, new: Option<T>) -> Option<T> {
    match new {
        Some(t) => Some(t),
        None => old,
    }
}

/// The mathematical value of an [`UpdateMeetingRequest`].
pub struct UpdateMeetingView {
    pub title: Option<Seq<char>>,
    pub description: Option<Seq<char>>,
    pub meeting_type: Option<Seq<char>>,
    pub date: Option<Seq<char>>,
    pub start_time: Option<Seq<char>>,
    pub end_time: Option<Seq<char>>,
    pub location: Option<Seq<char>>,
    pub agenda: Option<Seq<char>>,
    pub max_attendees: Option<u32>,
    pub summary: Option<Seq<char>>,
    pub recording_url: Option<Seq<char>>,
}

impl View for UpdateMeetingRequest {
    type V = UpdateMeetingView;

    open spec fn view(&self) -> UpdateMeetingView {
        UpdateMeetingView {
            title: text_opt(self.title),
            description: text_opt(self.description),
            meeting_type: text_opt(self.meeting_type),
            date: text_opt(self.date),
            start_time: text_opt(self.start_time),
            end_time: text_opt(self.end_time),
            location: text_opt(self.location),
            agenda: text_opt(self.agenda),
            max_attendees: self.max_attendees,
            summary: text_opt(self.summary),
            recording_url: text_opt(self.recording_url),
        }
    }
}

/// A meeting after an update.
pub open spec fn spec_apply_updates(m: MeetingView, u: UpdateMeetingView) -> MeetingView {
    MeetingView {
        title: updated_text(m.title, u.title),
        description: updated_text(m.description, u.description),
        meeting_type: updated_text(m.meeting_type, u.meeting_type),
        date: updated_text(m.date, u.date),
        start_time: updated_text(m.start_time, u.start_time),
        end_time: updated_text(m.end_time, u.end_time),
        location: updated_text(m.location, u.location),
        agenda: updated_text(m.agenda, u.agenda),
        max_attendees: updated_opt(m.max_attendees, u.max_attendees),
        summary: updated_opt(m.summary, u.summary),
        recording_url: updated_opt(m.recording_url, u.recording_url),
        ..m
    }
}

/// The meeting that a request creates under `id` at the instant written as
/// `created_at`.
pub open spec fn spec_new_meeting(
    req: CreateMeetingRequest,
    id: Seq<char>,
    created_at: Seq<char>,
) -> MeetingView {
    MeetingView {
        id,
        title: req.title@,
        description: req.description@,
        meeting_type: req.meeting_type@,
        date: req.date@,
        start_time: req.start_time@,
        end_time: req.end_time@,
        location: req.location@,
        agenda: req.agenda@,
        max_attendees: req.max_attendees,
        created_by: "admin"@,
        created_at,
        summary: None,
        recording_url: None,
    }
}

/// The reply that a request creates under `id` at the instant written as
/// `rsvp_date`.
pub open spec fn spec_new_rsvp(
    meeting_id: Seq<char>,
    status: Seq<char>,
    id: Seq<char>,
    rsvp_date: Seq<char>,
) -> RsvpView {
    RsvpView {
        id,
        meeting_id,
        user_id: "current-user"@,
        user_name: "Current User"@,
        user_email: "user@example.com"@,
        status,
        rsvp_date,
    }
}

/// The sample meetings.
pub fn get_mock_meetings() -> (r: Vec<Meeting>)
    ensures
        meeting_views(r@) == sample_meetings(),
{
    let mut v: Vec<Meeting> = Vec::new();
    v.push(
        Meeting {
            id: "1".to_owned(),
            title: "Weekly Club Meeting".to_owned(),
            description:
                "Our regular weekly meeting to discuss club activities and upcoming events.".to_owned(),
            meeting_type: "meeting".to_owned(),
            date: "2024-01-15".to_owned(),
            start_time: "18:00".to_owned(),
            end_time: "19:30".to_owned(),
            location: "Room 101, Student Center".to_owned(),
            agenda:
                "# Weekly Meeting Agenda\n\n## Topics\n1. Welcome new members\n2. Review last week's activities\n3. Plan upcoming events\n4. Q&A Session".to_owned(),
            max_attendees: Some(50),
            created_by: "admin".to_owned(),
            created_at: "2024-01-10T10:00:00Z".to_owned(),
            summary: None,
            recording_url: None,
        },
    );
    v.push(
        Meeting {
            id: "2".to_owned(),
            title: "Photography Workshop".to_owned(),
            description:
                "Learn the basics of digital photography with hands-on exercises.".to_owned(),
            meeting_type: "workshop".to_owned(),
            date: "2024-01-20".to_owned(),
            start_time: "14:00".to_owned(),
            end_time: "17:00".to_owned(),
            location: "Art Building, Studio 2".to_owned(),
            agenda:
                "# Photography Workshop\n\n## Schedule\n- **2:00-2:30 PM**: Introduction to Camera Settings\n- **2:30-3:15 PM**: Composition Techniques\n- **3:15-3:30 PM**: Break\n- **3:30-4:30 PM**: Hands-on Practice\n- **4:30-5:00 PM**: Review and Feedback".to_owned(),
            max_attendees: Some(20),
            created_by: "admin".to_owned(),
            created_at: "2024-01-08T15:30:00Z".to_owned(),
            summary: None,
            recording_url: None,
        },
    );
    v.push(
        Meeting {
            id: "3".to_owned(),
            title: "Welcome Social Event".to_owned(),
            description:
                "A casual social gathering to welcome new members and build community.".to_owned(),
            meeting_type: "social".to_owned(),
            date: "2024-01-25".to_owned(),
            start_time: "19:00".to_owned(),
            end_time: "22:00".to_owned(),
            location: "Student Lounge".to_owned(),
            agenda:
                "# Welcome Social\n\n## Activities\n- Icebreaker games\n- Food and refreshments\n- Group photos\n- Networking time".to_owned(),
            max_attendees: None,
            created_by: "admin".to_owned(),
            created_at: "2024-01-05T12:00:00Z".to_owned(),
            summary: None,
            recording_url: None,
        },
    );
    assert(meeting_views(v@) =~= sample_meetings());
    v
}

/// The sample replies.
pub fn get_mock_rsvps() -> (r: Vec<RSVP>)
    ensures
        rsvp_views(r@) == sample_rsvps(),
{
    let mut v: Vec<RSVP> = Vec::new();
    v.push(
        RSVP {
            id: "1".to_owned(),
            meeting_id: "1".to_owned(),
            user_id: "user1".to_owned(),
            user_name: "John Doe".to_owned(),
            user_email: "john@example.com".to_owned(),
            status: "attending".to_owned(),
            rsvp_date: "2024-01-12T10:00:00Z".to_owned(),
        },
    );
    v.push(
        RSVP {
            id: "2".to_owned(),
            meeting_id: "1".to_owned(),
            user_id: "user2".to_owned(),
            user_name: "Jane Smith".to_owned(),
            user_email: "jane@example.com".to_owned(),
            status: "maybe".to_owned(),
            rsvp_date: "2024-01-13T14:30:00Z".to_owned(),
        },
    );
    assert(rsvp_views(v@) =~= sample_rsvps());
    v
}

/// All meetings.
pub fn get_meetings() -> (r: Vec<Meeting>)
    ensures
        meeting_views(r@) == sample_meetings(),
{
    get_mock_meetings()
}

/// The meeting with this id, if there is one.
pub fn get_meeting(id: &str) -> (r: Option<Meeting>)
    ensures
        match first_index(sample_meetings(), meeting_with_id(id@)) {
            Some(i) => r matches Some(m) && m@ == sample_meetings()[i],
            None => r is None,
        },
{
    let all = get_mock_meetings();
    let n = all.len();
    let mut i: usize = 0;
    while i < n
        invariant
            n == all@.len(),
            i <= n,
            meeting_views(all@) == sample_meetings(),
            forall|k: int| 0 <= k < i ==> !meeting_with_id(id@)(#[trigger] sample_meetings()[k]),
        decreases n - i,
    {
        assert(meeting_views(all@)[i as int] == all@[i as int]@);
        if same_text(all[i].id.as_str(), id) {
            proof {
                assert(meeting_with_id(id@)(sample_meetings()[i as int]));
                lemma_first_index_is(sample_meetings(), meeting_with_id(id@), 0, i as int);
            }
            return Some(all[i].clone());
        }
        i += 1;
    }
    proof {
        assert(meeting_views(all@).len() == n);
        lemma_first_index_none(sample_meetings(), meeting_with_id(id@), 0);
    }
    None
}

/// The meeting with the changes applied.
pub fn apply_updates(meeting: Meeting, updates: UpdateMeetingRequest) -> (r: Meeting)
    ensures
        r@ == spec_apply_updates(meeting@, updates@),
{
    let mut meeting = meeting;
    if let Some(title) = updates.title {
        meeting.title = title;
    }
    if let Some(description) = updates.description {
        meeting.description = description;
    }
    if let Some(meeting_type) = updates.meeting_type {
        meeting.meeting_type = meeting_type;
    }
    if let Some(date) = updates.date {
        meeting.date = date;
    }
    if let Some(start_time) = updates.start_time {
        meeting.start_time = start_time;
    }
    if let Some(end_time) = updates.end_time {
        meeting.end_time = end_time;
    }
    if let Some(location) = updates.location {
        meeting.location = location;
    }
    if let Some(agenda) = updates.agenda {
        meeting.agenda = agenda;
    }
    if let Some(max_attendees) = updates.max_attendees {
        meeting.max_attendees = Some(max_attendees);
    }
    if let Some(summary) = updates.summary {
        meeting.summary = Some(summary);
    }
    if let Some(recording_url) = updates.recording_url {
        meeting.recording_url = Some(recording_url);
    }
    meeting
}

/// The meeting with this id after the changes, if there is such a meeting.
pub fn update_meeting(id: &str, updates: UpdateMeetingRequest) -> (r: Option<Meeting>)
    ensures
        match first_index(sample_meetings(), meeting_with_id(id@)) {
            Some(i) => r matches Some(m) && m@ == spec_apply_updates(
                sample_meetings()[i],
                updates@,
            ),
            None => r is None,
        },
{
    match get_meeting(id) {
        Some(meeting) => Some(apply_updates(meeting, updates)),
        None => None,
    }
}

/// Whether there is a meeting with this id to delete.
pub fn delete_meeting(id: &str) -> (r: bool)
    ensures
        r == (first_index(sample_meetings(), meeting_with_id(id@)) is Some),
{
    get_meeting(id).is_some()
}

/// The replies to the meeting with this id.
pub fn get_rsvps(meeting_id: &str) -> (r: Vec<RSVP>)
    ensures
        rsvp_views(r@) == sample_rsvps().filter(rsvp_for(meeting_id@)),
{
    let all = get_mock_rsvps();
    let ghost p = rsvp_for(meeting_id@);
    let ghost s = sample_rsvps();
    let mut out: Vec<RSVP> = Vec::new();
    let n = all.len();
    let mut i: usize = 0;
    assert(s.take(0).filter(p) =~= Seq::<RsvpView>::empty()) by {
        reveal(Seq::filter);
    }
    while i < n
        invariant
            n == all@.len(),
            i <= n,
            rsvp_views(all@) == s,
            p == rsvp_for(meeting_id@),
            rsvp_views(out@) =~= s.take(i as int).filter(p),
        decreases n - i,
    {
        assert(rsvp_views(all@)[i as int] == all@[i as int]@);
        proof {
            lemma_filter_step(s, p, i as int);
        }
        if same_text(all[i].meeting_id.as_str(), meeting_id) {
            out.push(all[i].clone());
        }
        i += 1;
    }
    assert(rsvp_views(all@).len() == n);
    assert(s.take(n as int) =~= s);
    out
}

/// The meeting that a request creates under `id`, at the instant written as
/// `created_at`.
pub fn create_meeting_at(req: CreateMeetingRequest, id: String, created_at: String) -> (r: Meeting)
    ensures
        r@ == spec_new_meeting(req, id@, created_at@),
{
    Meeting {
        id,
        title: req.title,
        description: req.description,
        meeting_type: req.meeting_type,
        date: req.date,
        start_time: req.start_time,
        end_time: req.end_time,
        location: req.location,
        agenda: req.agenda,
        max_attendees: req.max_attendees,
        created_by: "admin".to_owned(),
        created_at,
        summary: None,
        recording_url: None,
    }
}

/// The meeting that a request creates now, under an id drawn at random.
pub fn create_meeting(req: CreateMeetingRequest) -> (r: Meeting)
    ensures
        r@ == spec_new_meeting(req, r@.id, r@.created_at),
{
    let now = utc_now_rfc3339();
    let id = random_uuid();
    create_meeting_at(req, id, now)
}

/// The reply to a meeting that a request creates under `id`, at the instant
/// written as `rsvp_date`.
pub fn create_rsvp_at(meeting_id: &str, req: CreateRSVPRequest, id: String, rsvp_date: String) -> (r:
    RSVP)
    ensures
        r@ == spec_new_rsvp(meeting_id@, req.status@, id@, rsvp_date@),
{
    RSVP {
        id,
        meeting_id: meeting_id.to_owned(),
        user_id: "current-user".to_owned(),
        user_name: "Current User".to_owned(),
        user_email: "user@example.com".to_owned(),
        status: req.status,
        rsvp_date,
    }
}

/// The reply to a meeting that a request creates now, under an id drawn at
/// random.
pub fn create_rsvp(meeting_id: &str, req: CreateRSVPRequest) -> (r: RSVP)
    ensures
        r@ == spec_new_rsvp(meeting_id@, req.status@, r@.id, r@.rsvp_date),
{
    let now = utc_now_rfc3339();
    let id = random_uuid();
    create_rsvp_at(meeting_id, req, id, now)
}

} // verus!
