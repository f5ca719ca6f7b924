use crate::state::StandupState;
use crate::time::{utc_today, Timestamp};
use vstd::prelude::*;

verus! {

/// A known chat participant and where and when to reach them.
#[derive(Debug)]
pub struct User {
    pub id: i32,
    pub username: String,
    pub channel: Option<String>,
    pub reminder: Option<Timestamp>,
    pub real_name: String,
    pub avatar_url: String,
}

/// What storage needs to register a new user.
#[derive(Debug)]
pub struct NewUser<'a> {
    pub username: &'a str,
    pub real_name: &'a str,
    pub avatar_url: &'a str,
}

/// One user's answers for one day.
#[derive(Debug)]
pub struct Standup {
    pub id: i32,
    pub username: String,
    pub date: Timestamp,
    pub prev_day: Option<String>,
    pub day: Option<String>,
    pub blocker: Option<String>,
}

/// What storage needs to create a standup record.
#[derive(Debug)]
pub struct NewStandup {
    pub username: String,
    pub date: Timestamp,
}

/// The characters of an optional string.
pub open spec fn text_of(o: Option<String>) -> Option<Seq<char>> {
    match o {
        Some(s) => Some(s@),
        None => None,
    }
}

/// A standup record with its texts as character sequences.
pub struct StandupView {
    pub id: i32,
    pub username: Seq<char>,
    pub date: Timestamp,
    pub prev_day: Option<Seq<char>>,
    pub day: Option<Seq<char>>,
    pub blocker: Option<Seq<char>>,
}

impl StandupView {
    /// The state is read off which answers are present, nothing else.
    pub open spec fn state(self) -> StandupState {
        if self.prev_day is None {
            StandupState::PrevDay
        } else if self.day is None {
            StandupState::Today
        } else if self.blocker is None {
            StandupState::Blocker
        } else {
            StandupState::Complete
        }
    }

    /// The record after an answer: it fills the first empty field, and a
    /// complete record stays as it is.
    pub open spec fn with_content(self, c: Seq<char>) -> StandupView {
        match self.state() {
            StandupState::PrevDay => StandupView { prev_day: Some(c), ..self },
            StandupState::Today => StandupView { day: Some(c), ..self },
            StandupState::Blocker => StandupView { blocker: Some(c), ..self },
            StandupState::Complete => self,
        }
    }

    /// No field is set after an empty one.
    pub open spec fn filled_in_order(self) -> bool {
        &&& self.day is Some ==> self.prev_day is Some
        &&& self.blocker is Some ==> self.day is Some
    }
}

impl View for Standup {
    type V = StandupView;

    open spec fn view(&self) -> StandupView {
        StandupView {
            id: self.id,
            username: self.username@,
            date: self.date,
            prev_day: text_of(self.prev_day),
            day: text_of(self.day),
            blocker: text_of(self.blocker),
        }
    }
}

impl NewStandup {
    /// The record that storage creates from this payload under the given id:
    /// the same user and day, with no answers.
    pub open spec fn record(self, id: i32) -> StandupView {
        StandupView {
            id,
            username: self.username@,
            date: self.date,
            prev_day: None,
            day: None,
            blocker: None,
        }
    }
}

/// The question that follows the previous day's answer.
pub const FOCUS_PROMPT: &'static str = ":two: What are you going to be focusing on *today*?";

/// The question that follows today's plan.
pub const BLOCKER_PROMPT: &'static str = ":three: Any blockers impacting your work?";

/// The opening of the acknowledgment once the last answer is in.
pub const DONE_OPENING: &'static str = ":white_check_mark: *All done here!* ";

/// The words before a channel in the note that the answers were shared.
pub const SHARED_OPENING: &'static str = "Additionally, I've shared the standup notes to <#";

/// The words after a channel in the note that the answers were shared.
pub const SHARED_CLOSING: &'static str = ">.";

/// The sign-off of the acknowledgment, which names the next day.
pub const SIGN_OFF: &'static str = "\n\n Thank you, have a great day and talk to you tomorrow.";

/// The reply to a record that was already complete.
pub const ALREADY_DONE: &'static str = "You're done for today, off to work you go now! :nerd_face:";

/// The note that the answers were shared to a channel; empty without one.
pub open spec fn shared_note(channel: Option<Seq<char>>) -> Seq<char> {
    match channel {
        Some(c) => SHARED_OPENING@ + c + SHARED_CLOSING@,
        None => Seq::empty(),
    }
}

/// The message that goes to the user in each state.
pub open spec fn copy_for(state: StandupState, channel: Option<Seq<char>>) -> Seq<char> {
    match state {
        StandupState::PrevDay => FOCUS_PROMPT@,
        StandupState::Today => BLOCKER_PROMPT@,
        StandupState::Blocker => DONE_OPENING@ + shared_note(channel) + SIGN_OFF@,
        StandupState::Complete => ALREADY_DONE@,
    }
}

impl Standup {
    /// Which answer the record waits for, read from the fields as they are now.
    pub fn get_state(&self) -> (r: StandupState)
        ensures
            r == self@.state(),
    {
        if self.prev_day.is_none() {
            StandupState::PrevDay
        } else if self.day.is_none() {
            StandupState::Today
        } else if self.blocker.is_none() {
            StandupState::Blocker
        } else {
            StandupState::Complete
        }
    }

    /// Records an answer in the first empty field; on a complete record it
    /// does nothing.
    pub fn add_content(&mut self, content: &str)
        ensures
            final(self)@ == old(self)@.with_content(content@),
    {
        broadcast use vstd::string::to_string_from_display_ensures_for_str;

        match self.get_state() {
            StandupState::PrevDay => self.prev_day = Some(content.to_string()),
            StandupState::Today => self.day = Some(content.to_string()),
            StandupState::Blocker => self.blocker = Some(content.to_string()),
            StandupState::Complete => (),
        }
    }

    /// The next message for the user; once the last answer is in, it mentions
    /// the channel that the answers were shared to, if any.
    pub fn get_copy(&self, channel: &Option<String>) -> (r: String)
        ensures
            r@ == copy_for(self@.state(), text_of(*channel)),
    {
        match self.get_state() {
            StandupState::PrevDay => FOCUS_PROMPT.to_string(),
            StandupState::Today => BLOCKER_PROMPT.to_string(),
            StandupState::Blocker => {
                let mut text = DONE_OPENING.to_string();
                match channel {
                    Some(c) => {
                        text.append(SHARED_OPENING);
                        text.append(c.as_str());
                        text.append(SHARED_CLOSING);
                    },
                    None => {},
                }
                text.append(SIGN_OFF);
                text
            },
            StandupState::Complete => ALREADY_DONE.to_string(),
        }
    }
}

impl NewStandup {
    /// A payload for today's record of the given user, dated at the start of
    /// the current UTC day.
    pub fn new(username: &str) -> (r: NewStandup)
        ensures
            r.username@ == username@,
            r.date.is_midnight(),
            r.date.wf(),
    {
        broadcast use vstd::string::to_string_from_display_ensures_for_str;

        let (year, month, day) = utc_today();
        NewStandup { username: username.to_string(), date: Timestamp::midnight(year, month, day) }
    }
}

/// A record that storage creates from a new payload waits for the previous
/// day's answer first.
pub proof fn lemma_new_record_awaits_prev_day(n: NewStandup, id: i32)
    ensures
        n.record(id).state() == StandupState::PrevDay,
{
}

/// The state depends on which of the three answers are present and on nothing
/// else: two records that agree on that are in the same state.
pub proof fn lemma_state_follows_presence(a: StandupView, b: StandupView)
    requires
        a.prev_day is Some <==> b.prev_day is Some,
        a.day is Some <==> b.day is Some,
        a.blocker is Some <==> b.blocker is Some,
    ensures
        a.state() == b.state(),
{
}

/// Three answers take a record with no answers through every state in order,
/// each answer filling one empty field, the next in line.
pub proof fn lemma_three_answers_complete(
    r: StandupView,
    first: Seq<char>,
    second: Seq<char>,
    third: Seq<char>,
)
    requires
        r.prev_day is None,
        r.day is None,
        r.blocker is None,
    ensures
        r.state() == StandupState::PrevDay,
        r.with_content(first) == (StandupView { prev_day: Some(first), ..r }),
        r.with_content(first).state() == StandupState::Today,
        r.with_content(first).with_content(second) == (StandupView {
            day: Some(second),
            ..r.with_content(first)
        }),
        r.with_content(first).with_content(second).state() == StandupState::Blocker,
        r.with_content(first).with_content(second).with_content(third) == (StandupView {
            blocker: Some(third),
            ..r.with_content(first).with_content(second)
        }),
        r.with_content(first).with_content(second).with_content(third).state()
            == StandupState::Complete,
{
}

/// An answer to a complete record changes nothing.
pub proof fn lemma_complete_ignores_content(r: StandupView, c: Seq<char>)
    requires
        r.state() == StandupState::Complete,
    ensures
        r.with_content(c) == r,
{
}

/// An answer never sets a field while an earlier one is empty.
pub proof fn lemma_answers_stay_in_order(r: StandupView, c: Seq<char>)
    requires
        r.filled_in_order(),
    ensures
        r.with_content(c).filled_in_order(),
{
}

/// Once the last answer is in, the message without a channel is the
/// acknowledgment followed directly by the sign-off, with no note between;
/// with a channel, the channel's name stands in it right after the opening
/// of the note.
pub proof fn lemma_done_copy_mentions_channel(channel: Seq<char>)
    ensures
        copy_for(StandupState::Blocker, None) == DONE_OPENING@ + SIGN_OFF@,
        ({
            let k = (DONE_OPENING@.len() + SHARED_OPENING@.len()) as int;
            copy_for(StandupState::Blocker, Some(channel)).subrange(k, k + channel.len())
                == channel
        }),
{
}

} // verus!
