use vstd::prelude::*;
use vstd::string::*;

use crate::backend::Uid;
use crate::calendar::{iso_date, iso_date_text, shown, zone_moment, zone_moment_text, MOMENT};
use crate::day::Day;
use crate::render::{
    close_date_word, date_text, format_close_date, format_date, format_person_link, person_link,
    PersonDetails, LINK_CLOSE, LINK_MIDDLE, LOCALE, PURPOSE_CLOSE, PURPOSE_OPEN,
};
use crate::utils::TIMEZONE;
use crate::visits::{Visit, VisitUpdate};

verus! {

pub const UPDATED_AT: &'static str = "\n\nОбновлено: ";

pub const CHECK_IN_HEAD: &'static str = "👷 ";

pub const CHECK_IN_TAIL: &'static str = " пришёл в хакспейс";

pub const PLAN_HEAD: &'static str = "🗓️🚋 ";

pub const PLAN_TAIL: &'static str = " планирует зайти в хакспейс ";

pub const UNPLAN_HEAD: &'static str = "🗓️🏠 ";

pub const UNPLAN_TAIL: &'static str = " больше не планирует зайти в хакспейс ";

pub const SOME_DAY: &'static str = "в этот день";

pub const SPACE: &'static str = " ";

pub const CHECK_IN_DATA: &'static str = "/checkin";

pub const CHECK_OUT_DATA: &'static str = "/checkout";

pub const PLAN_DATA: &'static str = "/planvisit";

pub const UNPLAN_DATA: &'static str = "/unplanvisit";

pub const I_AM_IN: &'static str = "👷 Я зашёл";

pub const I_AM_OUT: &'static str = "🌆 Я ушёл";

pub const COMING_TODAY: &'static str = "🚋 Зайду сегодня";

pub const NOT_COMING: &'static str = "🏠 Передумал";

pub const ME_TOO_IN: &'static str = "👷 Я тоже в спейсе";

pub const ME_ALREADY_OUT: &'static str = "🌆 А я уже ушёл";

pub const ME_TOO_COMING: &'static str = "🚋 Я тоже зайду ";

pub const OR_NOT: &'static str = "🏠 Или нет";

pub const ME_NEITHER: &'static str = "🏠 Я тоже не приду ";

pub const OR_COMING: &'static str = "🚋 Или приду";

pub const POSTED_HEAD: &'static str = "✔️ Запостил в <a href=\"";

pub const CHANNEL_WORD: &'static str = "канал";

pub const PINNED_HEAD: &'static str = "Посмотри в <a href=\"";

pub const PINNED_TAIL: &'static str = "\">закрепе</a>";

/// The name by which a person is shown: the user name, or the full name
/// where the person has no user name.
pub fn display_name(username: Option<String>, full_name: String) -> (name: String)
    ensures
        name@ == match username {
            Some(u) => u@,
            None => full_name@,
        },
{
    match username {
        Some(u) => u,
        None => full_name,
    }
}

/// The reply to somebody who had a post passed on to the channel: a link
/// to the post there under the channel's title, or under a general word
/// where the channel has no title.
pub open spec fn posted_text(url: Seq<char>, title: Option<Seq<char>>) -> Seq<char> {
    POSTED_HEAD@ + url + LINK_MIDDLE@ + match title {
        Some(t) => t,
        None => CHANNEL_WORD@,
    } + LINK_CLOSE@
}

/// Words the reply to somebody who had a post passed on to the channel.
pub fn post_live_reply(url: &str, channel_title: Option<&str>) -> (text: String)
    ensures
        text@ == posted_text(
            url@,
            match channel_title {
                Some(t) => Some(t@),
                None => None,
            },
        ),
{
    let channel_name = match channel_title {
        Some(t) => t,
        None => CHANNEL_WORD,
    };
    let mut text = POSTED_HEAD.to_owned();
    text.append(url);
    text.append(LINK_MIDDLE);
    text.append(channel_name);
    text.append(LINK_CLOSE);
    text
}

/// The answer that points to the live status instead of repeating it.
pub open spec fn pinned_text(url: Seq<char>) -> Seq<char> {
    PINNED_HEAD@ + url + PINNED_TAIL@
}

/// Words the answer that points to the live status.
pub fn pinned_pointer(url: &str) -> (text: String)
    ensures
        text@ == pinned_text(url@),
{
    let mut text = PINNED_HEAD.to_owned();
    text.append(url);
    text.append(PINNED_TAIL);
    text
}

/// The live status as it is shown: the status, and under it the moment at
/// which it was brought up to date.
pub open spec fn full_live_status(live_status: Seq<char>, moment: Seq<char>) -> Seq<char> {
    live_status + UPDATED_AT@ + moment
}

/// Puts the moment of the last update, written out already, under the
/// live status.
pub fn full_live_status_from(live_status: &str, moment: &str) -> (text: String)
    ensures
        text@ == full_live_status(live_status@, moment@),
{
    let mut text = live_status.to_owned();
    text.append(UPDATED_AT);
    text.append(moment);
    text
}

/// The live status with the moment `utc_seconds`, given in seconds since
/// the first of January 1970, UTC, as the moment of its last update.
/// `None` where the calendar does not reach that moment.
pub fn get_full_live_status(live_status: &str, utc_seconds: i64) -> (text: Option<String>)
    ensures
        shown(text) == match zone_moment(TIMEZONE@, LOCALE@, MOMENT@, utc_seconds as int) {
            Some(moment) => Some(full_live_status(live_status@, moment)),
            None => None,
        },
{
    match zone_moment_text(TIMEZONE, LOCALE, MOMENT, utc_seconds) {
        Some(moment) => Some(full_live_status_from(live_status, moment.as_str())),
        None => None,
    }
}

/// The purpose that an update names, in quotes behind a colon; nothing
/// where it names none.
pub open spec fn named_purpose(purpose: Option<String>) -> Seq<char> {
    match purpose {
        Some(p) => PURPOSE_OPEN@ + p@ + PURPOSE_CLOSE@,
        None => Seq::<char>::empty(),
    }
}

fn append_named_purpose(text: &mut String, purpose: &Option<String>)
    ensures
        final(text)@ == old(text)@ + named_purpose(*purpose),
{
    match purpose {
        Some(p) => {
            text.append(PURPOSE_OPEN);
            text.append(p.as_str());
            text.append(PURPOSE_CLOSE);
            assert(text@ =~= old(text)@ + named_purpose(*purpose));
        },
        None => {
            assert(text@ =~= old(text)@ + named_purpose(*purpose));
        },
    }
}

/// The announcement of an arrival.
pub open spec fn check_in_text(details: PersonDetails, update: VisitUpdate) -> Seq<char> {
    CHECK_IN_HEAD@ + person_link(details) + CHECK_IN_TAIL@ + named_purpose(update.purpose)
}

/// Words the announcement of an arrival. `details` are those of the
/// person who arrived.
pub fn announce_check_in(details: &PersonDetails, visit_update: &VisitUpdate) -> (text: String)
    ensures
        text@ == check_in_text(*details, *visit_update),
{
    let mut text = CHECK_IN_HEAD.to_owned();
    text.append(format_person_link(details).as_str());
    text.append(CHECK_IN_TAIL);
    append_named_purpose(&mut text, &visit_update.purpose);
    assert(text@ =~= check_in_text(*details, *visit_update));
    text
}

/// The announcement of a plan; `None` where the calendar lacks its day.
pub open spec fn plan_text(details: PersonDetails, update: VisitUpdate, today: Day) -> Option<
    Seq<char>,
> {
    match date_text(update.day, today) {
        Some(date) => Some(
            PLAN_HEAD@ + person_link(details) + PLAN_TAIL@ + date + named_purpose(update.purpose),
        ),
        None => None,
    }
}

/// Words the announcement of a plan.
pub fn announce_plan(details: &PersonDetails, visit_update: &VisitUpdate, today: Day) -> (text:
    Option<String>)
    ensures
        shown(text) == plan_text(*details, *visit_update, today),
{
    let date = match format_date(visit_update.day, today) {
        Some(d) => d,
        None => {
            return None;
        },
    };
    let mut text = PLAN_HEAD.to_owned();
    text.append(format_person_link(details).as_str());
    text.append(PLAN_TAIL);
    text.append(date.as_str());
    append_named_purpose(&mut text, &visit_update.purpose);
    assert(text@ =~= plan_text(*details, *visit_update, today).unwrap());
    Some(text)
}

/// The announcement of a plan given up; `None` where the calendar lacks
/// its day.
pub open spec fn unplan_text(details: PersonDetails, day: Day, today: Day) -> Option<Seq<char>> {
    match date_text(day, today) {
        Some(date) => Some(UNPLAN_HEAD@ + person_link(details) + UNPLAN_TAIL@ + date),
        None => None,
    }
}

/// Words the announcement of a plan given up.
pub fn announce_unplan(details: &PersonDetails, day: Day, today: Day) -> (text: Option<String>)
    ensures
        shown(text) == unplan_text(*details, day, today),
{
    let date = match format_date(day, today) {
        Some(d) => d,
        None => {
            return None;
        },
    };
    let mut text = UNPLAN_HEAD.to_owned();
    text.append(format_person_link(details).as_str());
    text.append(UNPLAN_TAIL);
    text.append(date.as_str());
    assert(text@ =~= unplan_text(*details, day, today).unwrap());
    Some(text)
}

/// A button under a message: what it shows, and the data it sends back
/// when pressed.
#[derive(Debug, Clone, PartialEq, Eq)]
pub struct Button {
    pub label: String,
    pub data: String,
}

/// A button as sequences of characters.
pub struct ButtonView {
    pub label: Seq<char>,
    pub data: Seq<char>,
}

impl View for Button {
    type V = ButtonView;

    open spec fn view(&self) -> ButtonView {
        ButtonView { label: self.label@, data: self.data@ }
    }
}

/// A row of two buttons.
pub open spec fn is_pair(row: Seq<Button>, first: ButtonView, second: ButtonView) -> bool {
    row.len() == 2 && row[0]@ == first && row[1]@ == second
}

fn button(label: &str, data: &str) -> (made: Button)
    ensures
        made@ == (ButtonView { label: label@, data: data@ }),
{
    Button { label: label.to_owned(), data: data.to_owned() }
}

fn pair(first: Button, second: Button) -> (row: Vec<Button>)
    ensures
        is_pair(row@, first@, second@),
{
    let mut row: Vec<Button> = Vec::new();
    row.push(first);
    row.push(second);
    row
}

/// The buttons under the live status: coming in and going out, and below
/// them planning and giving up a visit today.
pub fn live_status_markup() -> (rows: Vec<Vec<Button>>)
    ensures
        rows.len() == 2,
        is_pair(
            rows[0]@,
            ButtonView { label: I_AM_IN@, data: CHECK_IN_DATA@ },
            ButtonView { label: I_AM_OUT@, data: CHECK_OUT_DATA@ },
        ),
        is_pair(
            rows[1]@,
            ButtonView { label: COMING_TODAY@, data: PLAN_DATA@ },
            ButtonView { label: NOT_COMING@, data: UNPLAN_DATA@ },
        ),
{
    let mut rows: Vec<Vec<Button>> = Vec::new();
    rows.push(pair(button(I_AM_IN, CHECK_IN_DATA), button(I_AM_OUT, CHECK_OUT_DATA)));
    rows.push(pair(button(COMING_TODAY, PLAN_DATA), button(NOT_COMING, UNPLAN_DATA)));
    rows
}

/// The buttons under the announcement of an arrival.
pub fn check_in_markup() -> (rows: Vec<Vec<Button>>)
    ensures
        rows.len() == 1,
        is_pair(
            rows[0]@,
            ButtonView { label: ME_TOO_IN@, data: CHECK_IN_DATA@ },
            ButtonView { label: ME_ALREADY_OUT@, data: CHECK_OUT_DATA@ },
        ),
{
    let mut rows: Vec<Vec<Button>> = Vec::new();
    rows.push(pair(button(ME_TOO_IN, CHECK_IN_DATA), button(ME_ALREADY_OUT, CHECK_OUT_DATA)));
    rows
}

/// The word for a close day, or a general word for any other day.
pub open spec fn day_word(day: Day, today: Day) -> Seq<char> {
    match close_date_word(day, today) {
        Some(word) => word,
        None => SOME_DAY@,
    }
}

/// The data of a button that names a day: the command, a space, and the
/// day in the form year, month, day.
pub open spec fn dated(command: Seq<char>, date: Seq<char>) -> Seq<char> {
    command + SPACE@ + date
}

fn dated_button(label: &str, word: &str, command: &str, date: &str) -> (made: Button)
    ensures
        made@ == (ButtonView { label: label@ + word@, data: dated(command@, date@) }),
{
    let mut text = label.to_owned();
    text.append(word);
    let mut data = command.to_owned();
    data.append(SPACE);
    data.append(date);
    assert(data@ =~= dated(command@, date@));
    Button { label: text, data }
}

/// Whether `rows` are the buttons under the announcement of a plan for
/// `day`, whose date in the form year, month, day is `date`: one row, to
/// come as well on that day, or not to.
pub open spec fn is_plan_markup(rows: Seq<Vec<Button>>, day: Day, today: Day, date: Seq<char>) -> bool {
    rows.len() == 1 && is_pair(
        rows[0]@,
        ButtonView { label: ME_TOO_COMING@ + day_word(day, today), data: dated(PLAN_DATA@, date) },
        ButtonView { label: OR_NOT@, data: dated(UNPLAN_DATA@, date) },
    )
}

/// Whether `rows` are the buttons under the announcement of a plan given
/// up for `day`, whose date in the form year, month, day is `date`: one
/// row, to stay away as well on that day, or to come.
pub open spec fn is_unplan_markup(
    rows: Seq<Vec<Button>>,
    day: Day,
    today: Day,
    date: Seq<char>,
) -> bool {
    rows.len() == 1 && is_pair(
        rows[0]@,
        ButtonView { label: ME_NEITHER@ + day_word(day, today), data: dated(UNPLAN_DATA@, date) },
        ButtonView { label: OR_COMING@, data: dated(PLAN_DATA@, date) },
    )
}

/// The word for a close day, or a general word for any other day.
fn close_or_some_day(day: Day, today: Day) -> (word: &'static str)
    ensures
        word@ == day_word(day, today),
{
    match format_close_date(day, today) {
        Some(w) => w,
        None => SOME_DAY,
    }
}

/// Makes the buttons under the announcement of a plan for `day` from the
/// day's date, written out already in the form year, month, day.
pub fn plan_visit_markup_from(day: Day, today: Day, date: &str) -> (rows: Vec<Vec<Button>>)
    ensures
        is_plan_markup(rows@, day, today, date@),
{
    proof {
        reveal_strlit("");
        assert(OR_NOT@ + ""@ =~= OR_NOT@);
    }
    let mut rows: Vec<Vec<Button>> = Vec::new();
    rows.push(
        pair(
            dated_button(ME_TOO_COMING, close_or_some_day(day, today), PLAN_DATA, date),
            dated_button(OR_NOT, "", UNPLAN_DATA, date),
        ),
    );
    rows
}

/// Makes the buttons under the announcement of a plan given up for `day`
/// from the day's date, written out already in the form year, month, day.
pub fn unplan_visit_markup_from(day: Day, today: Day, date: &str) -> (rows: Vec<Vec<Button>>)
    ensures
        is_unplan_markup(rows@, day, today, date@),
{
    proof {
        reveal_strlit("");
        assert(OR_COMING@ + ""@ =~= OR_COMING@);
    }
    let mut rows: Vec<Vec<Button>> = Vec::new();
    rows.push(
        pair(
            dated_button(ME_NEITHER, close_or_some_day(day, today), UNPLAN_DATA, date),
            dated_button(OR_COMING, "", PLAN_DATA, date),
        ),
    );
    rows
}

/// The buttons under the announcement of a plan: to come as well on that
/// day, or not to. `None` where the calendar lacks the day.
pub fn plan_visit_markup(day: Day, today: Day) -> (rows: Option<Vec<Vec<Button>>>)
    ensures
        match rows {
            Some(rows) => iso_date(day.0 as int) matches Some(date) && is_plan_markup(
                rows@,
                day,
                today,
                date,
            ),
            None => iso_date(day.0 as int).is_none(),
        },
{
    match iso_date_text(day.0) {
        Some(date) => Some(plan_visit_markup_from(day, today, date.as_str())),
        None => None,
    }
}

/// The buttons under the announcement of a plan given up: to stay away as
/// well on that day, or to come. `None` where the calendar lacks the day.
pub fn unplan_visit_markup(day: Day, today: Day) -> (rows: Option<Vec<Vec<Button>>>)
    ensures
        match rows {
            Some(rows) => iso_date(day.0 as int) matches Some(date) && is_unplan_markup(
                rows@,
                day,
                today,
                date,
            ),
            None => iso_date(day.0 as int).is_none(),
        },
{
    match iso_date_text(day.0) {
        Some(date) => Some(unplan_visit_markup_from(day, today, date.as_str())),
        None => None,
    }
}

/// The numbers of `ids` without repetitions: each at the place where it
/// occurs first.
pub open spec fn first_occurrences(ids: Seq<u64>) -> Seq<u64>
    decreases ids.len(),
{
    if ids.len() == 0 {
        ids
    } else {
        let front = first_occurrences(ids.drop_last());
        if front.contains(ids.last()) {
            front
        } else {
            front.push(ids.last())
        }
    }
}

/// `itertools::Itertools::unique` on the numbers: each number once, in
/// the order in which the numbers occur first.
#[verifier::external_body]
pub(crate) fn unique(ids: Vec<u64>) -> (firsts: Vec<u64>)
    ensures
        firsts@ == first_occurrences(ids@),
{
    itertools::Itertools::unique(ids.into_iter()).collect()
}

/// The persons of the visits as numbers, in the order of the visits.
pub open spec fn person_ids(visits: Seq<Visit>) -> Seq<u64> {
    visits.map_values(|visit: Visit| visit.person.0)
}

/// The persons as numbers.
pub open spec fn ids_of(persons: Seq<Uid>) -> Seq<u64> {
    persons.map_values(|person: Uid| person.0)
}

/// The persons whose details a list of visits needs: each visitor once,
/// in the order of the first visits.
pub fn visitors(visits: &Vec<Visit>) -> (persons: Vec<Uid>)
    ensures
        ids_of(persons@) == first_occurrences(person_ids(visits@)),
{
    let mut ids: Vec<u64> = Vec::new();
    let mut i: usize = 0;
    while i < visits.len()
        invariant
            i <= visits.len(),
            ids@ == person_ids(visits@).take(i as int),
        decreases visits.len() - i,
    {
        ids.push(visits[i].person.0);
        assert(ids@ =~= person_ids(visits@).take(i + 1));
        i += 1;
    }
    assert(ids@ =~= person_ids(visits@));
    let firsts = unique(ids);
    let mut persons: Vec<Uid> = Vec::new();
    let mut j: usize = 0;
    while j < firsts.len()
        invariant
            j <= firsts.len(),
            ids_of(persons@) == firsts@.take(j as int),
        decreases firsts.len() - j,
    {
        let ghost earlier = persons@;
        persons.push(Uid(firsts[j]));
        assert(ids_of(persons@) =~= ids_of(earlier).push(firsts@[j as int]));
        assert(firsts@.take(j + 1) =~= firsts@.take(j as int).push(firsts@[j as int]));
        j += 1;
    }
    assert(ids_of(persons@) =~= firsts@);
    persons
}

/// Nobody is left out and nobody is named twice: every number of the list
/// is among its first occurrences, and these are all different.
pub proof fn law_first_occurrences(ids: Seq<u64>)
    ensures
        first_occurrences(ids).no_duplicates(),
        forall|id: u64| #[trigger] first_occurrences(ids).contains(id) <==> ids.contains(id),
    decreases ids.len(),
{
    let firsts = first_occurrences(ids);
    if ids.len() > 0 {
        let front = ids.drop_last();
        let last = ids.last();
        law_first_occurrences(front);
        let before = first_occurrences(front);
        assert forall|id: u64| #[trigger] firsts.contains(id) <==> ids.contains(id) by {
            if firsts.contains(id) {
                let i = choose|i: int| 0 <= i < firsts.len() && firsts[i] == id;
                if i < before.len() {
                    assert(before[i] == id);
                    assert(before.contains(id));
                    assert(front.contains(id));
                    let k = choose|k: int| 0 <= k < front.len() && front[k] == id;
                    assert(ids[k] == id);
                } else {
                    assert(ids[ids.len() - 1] == id);
                }
            }
            if ids.contains(id) {
                let k = choose|k: int| 0 <= k < ids.len() && ids[k] == id;
                if k < front.len() {
                    assert(front[k] == id);
                    assert(front.contains(id));
                    assert(before.contains(id));
                    let i = choose|i: int| 0 <= i < before.len() && before[i] == id;
                    assert(firsts[i] == id);
                } else if before.contains(last) {
                } else {
                    assert(firsts[firsts.len() - 1] == id);
                }
            }
        }
        assert forall|i: int, j: int| 0 <= i < firsts.len() && 0 <= j < firsts.len() && i != j implies firsts[i]
            != firsts[j] by {
            if i < before.len() && j < before.len() {
                assert(before[i] != before[j]);
            } else if i < before.len() {
                assert(before.contains(before[i]));
            } else if j < before.len() {
                assert(before.contains(before[j]));
            }
        }
    }
}

} // verus!
