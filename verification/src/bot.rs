use vstd::prelude::*;
use vstd::string::*;

use crate::backend::Uid;
use crate::calendar::{leading_date, leading_date_of, shown_date};
use crate::day::Day;
use crate::text::{
    after_first_space, has_prefix, skip_first_word, starts_with, str_eq, strip_prefix, trim,
    trimmed,
};
use crate::visits::{VisitStatus, VisitUpdate, VisitUpdateView};

verus! {

/// The word for the day after today.
pub const TOMORROW: &'static str = "завтра";

/// The word for the day after tomorrow.
pub const DAY_AFTER_TOMORROW: &'static str = "послезавтра";

/// The pattern of a date in a command: year, month, day.
pub const COMMAND_DATE: &'static str = "%Y-%m-%d";

/// The text of a command without its name: what follows the first space
/// where the text begins with a slash (nothing where it has no space), the
/// whole text where it does not.
pub open spec fn stripped_command(text: Seq<char>) -> Seq<char> {
    if text.len() > 0 && text[0] == '/' {
        after_first_space(text)
    } else {
        text
    }
}

/// The text of a command without its name.
pub fn strip_command<'a>(text: &'a str) -> (rest: &'a str)
    ensures
        rest@ == stripped_command(text@),
{
    proof {
        reveal_strlit("/");
        if text@.len() > 0 {
            assert(text@.subrange(0, 1)[0] == text@[0]);
            if text@[0] == '/' {
                assert(text@.subrange(0, 1) =~= "/"@);
            }
        }
    }
    if starts_with(text, "/") {
        skip_first_word(text)
    } else {
        text
    }
}

/// What follows the first `n` characters of a text.
pub open spec fn tail(text: Seq<char>, n: nat) -> Seq<char> {
    text.subrange(n as int, text.len() as int)
}

/// The day that a text names and the purpose that follows it, where
/// `dated` is the date that the text begins with and what follows that
/// date, if the text begins with a date. The word for tomorrow and the word
/// for the day after go before a date; where the text begins with none of
/// the three, the day is today and the whole text is the purpose. The
/// purpose loses the white space around it.
pub open spec fn day_and_purpose_given(
    text: Seq<char>,
    today: Day,
    dated: Option<(int, Seq<char>)>,
) -> (Day, Seq<char>) {
    if has_prefix(text, TOMORROW@) {
        (Day((today.0 + 1) as i32), trimmed(tail(text, TOMORROW@.len())))
    } else if has_prefix(text, DAY_AFTER_TOMORROW@) {
        (Day((today.0 + 2) as i32), trimmed(tail(text, DAY_AFTER_TOMORROW@.len())))
    } else {
        match dated {
            Some((days, rest)) => (Day(days as i32), trimmed(rest)),
            None => (today, trimmed(text)),
        }
    }
}

/// The day that a text names and the purpose that follows it.
pub open spec fn day_and_purpose(text: Seq<char>, today: Day) -> (Day, Seq<char>) {
    day_and_purpose_given(text, today, leading_date(text, COMMAND_DATE@))
}

/// Decides the day and the purpose of a visit from the text of a command
/// and the date that was read at its start, if one was. `today` must leave
/// room for the day after tomorrow.
pub fn day_purpose_from<'a>(text: &'a str, today: Day, dated: Option<(i32, &'a str)>) -> (parsed: (
    Day,
    &'a str,
))
    requires
        today.0 <= i32::MAX - 2,
    ensures
        (parsed.0, parsed.1@) == day_and_purpose_given(text@, today, shown_date(dated)),
{
    if let Some(purpose) = strip_prefix(text, TOMORROW) {
        return (Day(today.0 + 1), trim(purpose));
    }
    if let Some(purpose) = strip_prefix(text, DAY_AFTER_TOMORROW) {
        return (Day(today.0 + 2), trim(purpose));
    }
    match dated {
        Some((days, purpose)) => (Day(days), trim(purpose)),
        None => (today, trim(text)),
    }
}

/// Reads the day and the purpose of a visit from the text of a command.
/// `today` must leave room for the day after tomorrow.
pub fn parse_day_purpose<'a>(text: &'a str, today: Day) -> (parsed: (Day, &'a str))
    requires
        today.0 <= i32::MAX - 2,
    ensures
        (parsed.0, parsed.1@) == day_and_purpose(text@, today),
{
    day_purpose_from(text, today, leading_date_of(text, COMMAND_DATE))
}

/// The update that plans the visit which a text describes, where `dated`
/// is the date that the text begins with and what follows it, if the text
/// begins with a date: the day and the purpose are those of the text, and
/// an empty purpose is none.
pub open spec fn planned_visit_given(
    author: Uid,
    text: Seq<char>,
    today: Day,
    dated: Option<(int, Seq<char>)>,
) -> VisitUpdateView {
    let (day, purpose) = day_and_purpose_given(text, today, dated);
    VisitUpdateView {
        person: author,
        day,
        purpose: if purpose.len() == 0 {
            None
        } else {
            Some(purpose)
        },
        status: VisitStatus::Planned,
    }
}

/// The update that plans the visit which a text describes.
pub open spec fn planned_visit(author: Uid, text: Seq<char>, today: Day) -> VisitUpdateView {
    planned_visit_given(author, text, today, leading_date(text, COMMAND_DATE@))
}

/// Decides the planned visit from the text of a command and the date that
/// was read at its start, if one was.
pub fn visit_text_from(author: Uid, msg: &str, today: Day, dated: Option<(i32, &str)>) -> (update:
    VisitUpdate)
    requires
        today.0 <= i32::MAX - 2,
    ensures
        update@ == planned_visit_given(author, msg@, today, shown_date(dated)),
{
    let (day, purpose) = day_purpose_from(msg, today, dated);
    VisitUpdate {
        person: author,
        day,
        purpose: if purpose.unicode_len() == 0 {
            None
        } else {
            Some(purpose.to_owned())
        },
        status: VisitStatus::Planned,
    }
}

/// Reads a planned visit from the text of a command.
pub fn parse_visit_text(author: Uid, msg: &str, today: Day) -> (update: VisitUpdate)
    requires
        today.0 <= i32::MAX - 2,
    ensures
        update@ == planned_visit(author, msg@, today),
{
    visit_text_from(author, msg, today, leading_date_of(msg, COMMAND_DATE))
}

/// Reads a planned visit from a whole message, command name included.
pub fn parse_visit_message(author: Uid, text: &str, today: Day) -> (update: VisitUpdate)
    requires
        today.0 <= i32::MAX - 2,
    ensures
        update@ == planned_visit(author, stripped_command(text@), today),
{
    parse_visit_text(author, strip_command(text), today)
}

/// The purpose that a check-in message names: what follows the command
/// name, or none where nothing follows.
pub fn check_in_purpose(text: &str) -> (purpose: Option<String>)
    ensures
        crate::calendar::shown(purpose) == if stripped_command(text@).len() == 0 {
            None::<Seq<char>>
        } else {
            Some(stripped_command(text@))
        },
{
    let purpose_raw = strip_command(text);
    if purpose_raw.unicode_len() == 0 {
        None
    } else {
        Some(purpose_raw.to_owned())
    }
}

/// What pressing a button asks for.
#[derive(Debug, Clone)]
pub enum CallbackAction {
    PlanVisit(VisitUpdate),
    UnplanVisit { person: Uid, day: Day },
    CheckIn { person: Uid },
    CheckOut { person: Uid },
}

/// A button's request with its texts as sequences of characters.
pub enum CallbackActionView {
    PlanVisit(VisitUpdateView),
    UnplanVisit { person: Uid, day: Day },
    CheckIn { person: Uid },
    CheckOut { person: Uid },
}

impl View for CallbackAction {
    type V = CallbackActionView;

    open spec fn view(&self) -> CallbackActionView {
        match self {
            CallbackAction::PlanVisit(u) => CallbackActionView::PlanVisit(u@),
            CallbackAction::UnplanVisit { person, day } => CallbackActionView::UnplanVisit {
                person: *person,
                day: *day,
            },
            CallbackAction::CheckIn { person } => CallbackActionView::CheckIn { person: *person },
            CallbackAction::CheckOut { person } => CallbackActionView::CheckOut { person: *person },
        }
    }
}

/// Why the front end gave up on a request.
#[derive(Debug, Clone, Copy, PartialEq, Eq, Structural)]
pub enum BotError {
    /// The data of a button is none that this front end hands out.
    UnhandledCallback,
}

/// How the handling of one request ended.
#[derive(Debug, Clone, Copy, PartialEq, Eq, Structural)]
pub enum Handled {
    /// The request was carried out.
    Done,
    /// The handler gave up with an error.
    Failed,
    /// The handler broke down.
    Crashed,
}

/// What follows the handling of one request.
#[derive(Debug, Clone, Copy, PartialEq, Eq, Structural)]
pub struct Aftermath {
    /// Whether the user is told that something went wrong.
    pub notify: bool,
    /// Whether the handler's error is passed on to the dispatcher.
    pub pass_on: bool,
}

/// Decides what follows the handling of one request. Whatever went wrong,
/// the user gets the same plain notice; an error is passed on as well, and
/// a breakdown ends with the notice, so that other requests go on.
pub fn aftermath(handled: Handled) -> (next: Aftermath)
    ensures
        next.notify == (handled != Handled::Done),
        next.pass_on == (handled == Handled::Failed),
{
    match handled {
        Handled::Done => Aftermath { notify: false, pass_on: false },
        Handled::Failed => Aftermath { notify: true, pass_on: true },
        Handled::Crashed => Aftermath { notify: true, pass_on: false },
    }
}

/// The data of the buttons.
pub const PLAN_VISIT_COMMAND: &'static str = "/planvisit";

pub const UNPLAN_VISIT_COMMAND: &'static str = "/unplanvisit";

pub const CHECK_IN_COMMAND: &'static str = "/checkin";

pub const CHECK_OUT_COMMAND: &'static str = "/checkout";

/// What the data of a button asks for, where `dated` is the date that
/// stands behind the command name and what follows that date, if a date
/// stands there. `None` where the data is none that this front end hands
/// out. Planning and unplanning take the day, and planning the purpose,
/// from what follows the command name.
pub open spec fn callback_request_given(
    author: Uid,
    data: Seq<char>,
    today: Day,
    dated: Option<(int, Seq<char>)>,
) -> Option<CallbackActionView> {
    if has_prefix(data, PLAN_VISIT_COMMAND@) {
        Some(
            CallbackActionView::PlanVisit(
                planned_visit_given(author, stripped_command(data), today, dated),
            ),
        )
    } else if has_prefix(data, UNPLAN_VISIT_COMMAND@) {
        Some(
            CallbackActionView::UnplanVisit {
                person: author,
                day: planned_visit_given(author, stripped_command(data), today, dated).day,
            },
        )
    } else if data == CHECK_IN_COMMAND@ {
        Some(CallbackActionView::CheckIn { person: author })
    } else if data == CHECK_OUT_COMMAND@ {
        Some(CallbackActionView::CheckOut { person: author })
    } else {
        None
    }
}

/// What the data of a button asks for, or `None` where the data is none
/// that this front end hands out.
pub open spec fn callback_request(author: Uid, data: Seq<char>, today: Day) -> Option<
    CallbackActionView,
> {
    callback_request_given(
        author,
        data,
        today,
        leading_date(stripped_command(data), COMMAND_DATE@),
    )
}

/// The view of an optional request.
pub open spec fn requested(action: Option<CallbackAction>) -> Option<CallbackActionView> {
    match action {
        Some(a) => Some(a@),
        None => None,
    }
}

/// What a button is answered with: nothing where it has no data, what its
/// data asks for, or an error where the data asks for nothing known.
pub open spec fn callback_outcome(request: Option<Option<CallbackActionView>>) -> Result<
    Option<CallbackActionView>,
    BotError,
> {
    match request {
        None => Ok(None),
        Some(Some(action)) => Ok(Some(action)),
        Some(None) => Err(BotError::UnhandledCallback),
    }
}

/// The view of the answer to a button.
pub open spec fn answered(outcome: Result<Option<CallbackAction>, BotError>) -> Result<
    Option<CallbackActionView>,
    BotError,
> {
    match outcome {
        Ok(action) => Ok(requested(action)),
        Err(e) => Err(e),
    }
}

/// Decides what a pressed button asks for, from its data and the date
/// that was read behind the command name, if one was. A button without
/// data asks for nothing; data that this front end does not hand out is
/// an error.
pub fn callback_from(author: Uid, data: Option<&str>, today: Day, dated: Option<(i32, &str)>) -> (outcome:
    Result<Option<CallbackAction>, BotError>)
    requires
        today.0 <= i32::MAX - 2,
    ensures
        answered(outcome) == callback_outcome(
            match data {
                Some(d) => Some(callback_request_given(author, d@, today, shown_date(dated))),
                None => None,
            },
        ),
{
    let data = match data {
        Some(d) => d,
        None => {
            return Ok(None);
        },
    };
    if starts_with(data, PLAN_VISIT_COMMAND) {
        let visit_update = visit_text_from(author, strip_command(data), today, dated);
        Ok(Some(CallbackAction::PlanVisit(visit_update)))
    } else if starts_with(data, UNPLAN_VISIT_COMMAND) {
        let visit_update = visit_text_from(author, strip_command(data), today, dated);
        Ok(Some(CallbackAction::UnplanVisit { person: visit_update.person, day: visit_update.day }))
    } else if str_eq(data, CHECK_IN_COMMAND) {
        Ok(Some(CallbackAction::CheckIn { person: author }))
    } else if str_eq(data, CHECK_OUT_COMMAND) {
        Ok(Some(CallbackAction::CheckOut { person: author }))
    } else {
        Err(BotError::UnhandledCallback)
    }
}

/// Decides what a pressed button asks for. A button without data asks
/// for nothing; data that this front end does not hand out is an error.
pub fn parse_callback(author: Uid, data: Option<&str>, today: Day) -> (outcome: Result<
    Option<CallbackAction>,
    BotError,
>)
    requires
        today.0 <= i32::MAX - 2,
    ensures
        answered(outcome) == callback_outcome(
            match data {
                Some(d) => Some(callback_request(author, d@, today)),
                None => None,
            },
        ),
{
    let dated = match data {
        Some(d) => leading_date_of(strip_command(d), COMMAND_DATE),
        None => None,
    };
    callback_from(author, data, today, dated)
}

} // verus!
