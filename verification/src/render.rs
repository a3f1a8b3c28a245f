use std::collections::HashMap;
use vstd::prelude::*;
use vstd::string::*;

use crate::calendar::{
    localized_date, localized_date_text, lowercase, lowercase_of, DATE_WITHOUT_YEAR,
    DATE_WITH_YEAR,
};
use crate::day::Day;
use crate::visits::{Visit, VisitStatus};

verus! {

broadcast use vstd::std_specs::hash::group_hash_axioms;

/// What the front end knows of a person.
#[derive(Debug, Clone)]
pub struct PersonDetails {
    /// Whether the person is a resident of the space.
    pub resident: bool,
    pub display_name: String,
    pub link: String,
}

pub const LINK_OPEN: &'static str = "<a href=\"";

pub const LINK_MIDDLE: &'static str = "\">";

pub const LINK_CLOSE: &'static str = "</a>";

pub const RESIDENT_MARK: &'static str = "®️";

pub const PURPOSE_OPEN: &'static str = ": \"";

pub const PURPOSE_CLOSE: &'static str = "\"";

pub const INSIDE_NOTE: &'static str = " (сейчас в спейсе 👷)";

pub const LEFT_NOTE: &'static str = " (ушёл 🌆)";

pub const LINE_BREAK: &'static str = "\n";

/// A person's name as a link, with a mark behind it for a resident.
pub open spec fn person_link(details: PersonDetails) -> Seq<char> {
    LINK_OPEN@ + details.link@ + LINK_MIDDLE@ + details.display_name@ + LINK_CLOSE@ + if details.resident {
        RESIDENT_MARK@
    } else {
        Seq::<char>::empty()
    }
}

/// A purpose in quotes behind a colon; nothing for the empty purpose.
pub open spec fn quoted_purpose(purpose: Seq<char>) -> Seq<char> {
    if purpose.len() == 0 {
        purpose
    } else {
        PURPOSE_OPEN@ + purpose + PURPOSE_CLOSE@
    }
}

/// What is said of a visit's status in a list of plans.
pub open spec fn status_note(status: VisitStatus) -> Seq<char> {
    match status {
        VisitStatus::Planned => Seq::<char>::empty(),
        VisitStatus::CheckedIn => INSIDE_NOTE@,
        VisitStatus::CheckedOut => LEFT_NOTE@,
    }
}

/// The line of one visit: who, and what for.
pub open spec fn visit_line(visit: Visit, details: PersonDetails) -> Seq<char> {
    person_link(details) + quoted_purpose(visit.purpose@)
}

/// The line of one visit with its status behind it.
pub open spec fn visit_line_with_status(visit: Visit, details: PersonDetails) -> Seq<char> {
    visit_line(visit, details) + status_note(visit.status)
}

/// The texts joined, with `separator` between each two of them.
pub open spec fn joined(parts: Seq<Seq<char>>, separator: Seq<char>) -> Seq<char>
    decreases parts.len(),
{
    if parts.len() == 0 {
        Seq::<char>::empty()
    } else if parts.len() == 1 {
        parts[0]
    } else {
        joined(parts.drop_last(), separator) + separator + parts.last()
    }
}

/// The views of a sequence of texts.
pub open spec fn texts(parts: Seq<String>) -> Seq<Seq<char>> {
    parts.map_values(|part: String| part@)
}

/// `itertools::Itertools::join` on the texts: all of them in order, with
/// the separator between each two, and the empty text where there are
/// none.
#[verifier::external_body]
pub(crate) fn join(parts: &Vec<String>, separator: &str) -> (text: String)
    ensures
        text@ == joined(texts(parts@), separator@),
{
    itertools::Itertools::join(&mut parts.iter(), separator)
}

/// A person's name as a link, with a mark behind it for a resident.
pub fn format_person_link(details: &PersonDetails) -> (text: String)
    ensures
        text@ == person_link(*details),
{
    let mut text = LINK_OPEN.to_owned();
    text.append(details.link.as_str());
    text.append(LINK_MIDDLE);
    text.append(details.display_name.as_str());
    text.append(LINK_CLOSE);
    if details.resident {
        text.append(RESIDENT_MARK);
    }
    assert(text@ =~= person_link(*details));
    text
}

/// The line of one visit: who, and what for.
pub fn format_visit_without_status(v: &Visit, details: &PersonDetails) -> (text: String)
    ensures
        text@ == visit_line(*v, *details),
{
    let mut text = format_person_link(details);
    if v.purpose.as_str().unicode_len() != 0 {
        text.append(PURPOSE_OPEN);
        text.append(v.purpose.as_str());
        text.append(PURPOSE_CLOSE);
    }
    assert(text@ =~= visit_line(*v, *details));
    text
}

/// The line of one visit with its status behind it.
pub fn format_visit(v: &Visit, details: &PersonDetails) -> (text: String)
    ensures
        text@ == visit_line_with_status(*v, *details),
{
    let status_str = match v.status {
        VisitStatus::Planned => "",
        VisitStatus::CheckedIn => INSIDE_NOTE,
        VisitStatus::CheckedOut => LEFT_NOTE,
    };
    proof {
        reveal_strlit("");
        assert(""@ =~= Seq::<char>::empty());
    }
    let mut text = format_visit_without_status(v, details);
    text.append(status_str);
    assert(text@ =~= visit_line_with_status(*v, *details));
    text
}

/// Which visits a list takes: those of residents or those of guests, and
/// among them only those with a given status or on a given day, where one
/// is named.
#[derive(Debug, Clone, Copy)]
pub struct Pick {
    pub resident: bool,
    pub status: Option<VisitStatus>,
    pub day: Option<Day>,
}

/// Whether the details of each visit's person are known.
pub open spec fn all_known(visits: Seq<Visit>, details: Map<u64, PersonDetails>) -> bool {
    forall|i: int| 0 <= i < visits.len() ==> details.contains_key(#[trigger] visits[i].person.0)
}

/// Whether a list takes a visit.
pub open spec fn picked(pick: Pick, visit: Visit, details: Map<u64, PersonDetails>) -> bool {
    &&& details[visit.person.0].resident == pick.resident
    &&& pick.status matches Some(status) ==> visit.status == status
    &&& pick.day matches Some(day) ==> visit.day == day
}

/// The lines of the visits that a list takes, in the order of the visits.
pub open spec fn lines_of(
    visits: Seq<Visit>,
    details: Map<u64, PersonDetails>,
    pick: Pick,
    with_status: bool,
) -> Seq<Seq<char>>
    decreases visits.len(),
{
    if visits.len() == 0 {
        Seq::<Seq<char>>::empty()
    } else {
        let front = lines_of(visits.drop_last(), details, pick, with_status);
        let visit = visits.last();
        if picked(pick, visit, details) {
            front.push(
                if with_status {
                    visit_line_with_status(visit, details[visit.person.0])
                } else {
                    visit_line(visit, details[visit.person.0])
                },
            )
        } else {
            front
        }
    }
}

/// The lines of the visits with a given status or day, residents first
/// and guests after them, each group in the order of the visits.
pub open spec fn residents_first(
    visits: Seq<Visit>,
    details: Map<u64, PersonDetails>,
    status: Option<VisitStatus>,
    day: Option<Day>,
    with_status: bool,
) -> Seq<Seq<char>> {
    lines_of(visits, details, Pick { resident: true, status, day }, with_status) + lines_of(
        visits,
        details,
        Pick { resident: false, status, day },
        with_status,
    )
}

/// Adds to `lines` the lines of the visits that `pick` takes.
fn collect_lines(
    visits: &Vec<Visit>,
    details: &HashMap<u64, PersonDetails>,
    pick: Pick,
    with_status: bool,
    lines: &mut Vec<String>,
)
    requires
        all_known(visits@, details@),
    ensures
        texts(final(lines)@) == texts(old(lines)@) + lines_of(visits@, details@, pick, with_status),
{
    let ghost before = texts(lines@);
    let mut i: usize = 0;
    assert(visits@.take(0) =~= Seq::<Visit>::empty());
    assert(texts(lines@) =~= before + lines_of(visits@.take(0), details@, pick, with_status));
    while i < visits.len()
        invariant
            i <= visits.len(),
            all_known(visits@, details@),
            texts(lines@) == before + lines_of(visits@.take(i as int), details@, pick, with_status),
        decreases visits.len() - i,
    {
        let visit = &visits[i];
        assert(details@.contains_key(visits@[i as int].person.0));
        let person = details.get(&visit.person.0).unwrap();
        let takes = person.resident == pick.resident && (match pick.status {
            Some(status) => visit.status == status,
            None => true,
        }) && (match pick.day {
            Some(day) => visit.day == day,
            None => true,
        });
        proof {
            assert(visits@.take(i + 1).drop_last() =~= visits@.take(i as int));
            assert(visits@.take(i + 1).last() == visits@[i as int]);
        }
        if takes {
            let ghost earlier = lines@;
            let line = if with_status {
                format_visit(visit, person)
            } else {
                format_visit_without_status(visit, person)
            };
            lines.push(line);
            assert(texts(lines@) =~= texts(earlier).push(line@));
        }
        i += 1;
        assert(texts(lines@) =~= before + lines_of(
            visits@.take(i as int),
            details@,
            pick,
            with_status,
        ));
    }
    assert(visits@.take(visits.len() as int) =~= visits@);
}

/// The visits of one day as lines with their status, residents first.
pub fn format_day(vs: &Vec<Visit>, details: &HashMap<u64, PersonDetails>) -> (text: String)
    requires
        all_known(vs@, details@),
    ensures
        text@ == joined(residents_first(vs@, details@, None, None, true), LINE_BREAK@),
{
    let mut lines: Vec<String> = Vec::new();
    collect_lines(vs, details, Pick { resident: true, status: None, day: None }, true, &mut lines);
    collect_lines(vs, details, Pick { resident: false, status: None, day: None }, true, &mut lines);
    assert(texts(lines@) =~= residents_first(vs@, details@, None, None, true));
    join(&lines, LINE_BREAK)
}

/// The locale in whose manner days are written out.
pub const LOCALE: &'static str = "ru_RU";

pub const TODAY_WORD: &'static str = "сегодня";

pub const TOMORROW_WORD: &'static str = "завтра";

pub const DAY_AFTER_TOMORROW_WORD: &'static str = "послезавтра";

pub const COMMA: &'static str = ", ";

pub const BLOCK_HEAD_END: &'static str = ":\n";

pub const BLOCK_BREAK: &'static str = "\n\n";

/// From how many days ahead on a date is written with its year.
pub const YEAR_SHOWN_AFTER_DAYS: i64 = 60;

/// The word for a day that is today, tomorrow or the day after; no other
/// day has one.
pub open spec fn close_date_word(date: Day, today: Day) -> Option<Seq<char>> {
    if date.0 - today.0 == 0 {
        Some(TODAY_WORD@)
    } else if date.0 - today.0 == 1 {
        Some(TOMORROW_WORD@)
    } else if date.0 - today.0 == 2 {
        Some(DAY_AFTER_TOMORROW_WORD@)
    } else {
        None
    }
}

/// The word for a day that is today, tomorrow or the day after.
pub fn format_close_date(date: Day, today: Day) -> (word: Option<&'static str>)
    ensures
        match word {
            Some(w) => close_date_word(date, today) == Some(w@),
            None => close_date_word(date, today).is_none(),
        },
{
    let ahead = date.days_since(today);
    if ahead == 0 {
        Some(TODAY_WORD)
    } else if ahead == 1 {
        Some(TOMORROW_WORD)
    } else if ahead == 2 {
        Some(DAY_AFTER_TOMORROW_WORD)
    } else {
        None
    }
}

/// The pattern by which a date is written: with its year where it lies
/// more than `YEAR_SHOWN_AFTER_DAYS` days ahead.
pub open spec fn date_pattern(date: Day, today: Day) -> Seq<char> {
    if date.0 - today.0 > YEAR_SHOWN_AFTER_DAYS {
        DATE_WITH_YEAR@
    } else {
        DATE_WITHOUT_YEAR@
    }
}

/// Chooses the pattern by which a date is written.
pub fn date_pattern_for(date: Day, today: Day) -> (pattern: &'static str)
    ensures
        pattern@ == date_pattern(date, today),
        pattern@ == DATE_WITH_YEAR@ || pattern@ == DATE_WITHOUT_YEAR@,
{
    if date.days_since(today) > YEAR_SHOWN_AFTER_DAYS {
        DATE_WITH_YEAR
    } else {
        DATE_WITHOUT_YEAR
    }
}

/// A date that was written out already, with the word for a close day in
/// front of it, where the day is close.
pub open spec fn date_with_word(date: Day, today: Day, written: Seq<char>) -> Seq<char> {
    match close_date_word(date, today) {
        Some(word) => word + COMMA@ + written,
        None => written,
    }
}

/// A date as text: the day of the month, the month and the weekday in
/// lower case, with the year for a date far ahead, and with the word for
/// a close day in front. `None` where the calendar has no such day.
pub open spec fn date_text(date: Day, today: Day) -> Option<Seq<char>> {
    match localized_date(LOCALE@, date_pattern(date, today), date.0 as int) {
        Some(written) => Some(date_with_word(date, today, lowercase_of(written))),
        None => None,
    }
}

/// Puts the word for a close day in front of a date that was written out
/// already; a date that is not close stays as it was written.
pub fn date_from(date: Day, today: Day, written: String) -> (text: String)
    ensures
        text@ == date_with_word(date, today, written@),
{
    match format_close_date(date, today) {
        Some(close_date) => {
            let mut text = close_date.to_owned();
            text.append(COMMA);
            text.append(written.as_str());
            text
        },
        None => written,
    }
}

/// A date as text, or `None` where the calendar has no such day.
pub fn format_date(date: Day, today: Day) -> (text: Option<String>)
    ensures
        crate::calendar::shown(text) == date_text(date, today),
{
    match localized_date_text(LOCALE, date_pattern_for(date, today), date.0) {
        Some(written) => Some(date_from(date, today, lowercase(written.as_str()))),
        None => None,
    }
}

/// `days` with `day` put in where it belongs in ascending order, unless
/// it is there already.
pub open spec fn with_day(days: Seq<i32>, day: i32) -> Seq<i32>
    decreases days.len(),
{
    if days.len() == 0 || days.last() < day {
        days.push(day)
    } else if days.last() == day {
        days
    } else {
        with_day(days.drop_last(), day).push(days.last())
    }
}

/// The days on which there are visits, each once, in ascending order.
pub open spec fn days_of(visits: Seq<Visit>) -> Seq<i32>
    decreases visits.len(),
{
    if visits.len() == 0 {
        Seq::<i32>::empty()
    } else {
        with_day(days_of(visits.drop_last()), visits.last().day.0)
    }
}

/// Whether the days stand in strictly ascending order.
pub open spec fn ascending(days: Seq<i32>) -> bool {
    forall|i: int, j: int| 0 <= i < j < days.len() ==> days[i] < days[j]
}

/// Putting a day into ascending days keeps them ascending, and the days
/// afterwards are the ones before and the new one.
pub proof fn lemma_with_day(days: Seq<i32>, day: i32)
    requires
        ascending(days),
    ensures
        ascending(with_day(days, day)),
        forall|d: i32| #[trigger] with_day(days, day).contains(d) <==> days.contains(d) || d == day,
    decreases days.len(),
{
    let after = with_day(days, day);
    if days.len() == 0 || days.last() < day {
        assert forall|d: i32| #[trigger] after.contains(d) <==> days.contains(d) || d == day by {
            if after.contains(d) {
                let i = choose|i: int| 0 <= i < after.len() && after[i] == d;
                if i < days.len() {
                    assert(days[i] == d);
                }
            }
            if days.contains(d) {
                let i = choose|i: int| 0 <= i < days.len() && days[i] == d;
                assert(after[i] == d);
            }
            if d == day {
                assert(after[after.len() - 1] == d);
            }
        }
    } else if days.last() == day {
        assert(days[days.len() - 1] == day);
    } else {
        let front = days.drop_last();
        let last = days.last();
        assert(ascending(front));
        lemma_with_day(front, day);
        let mid = with_day(front, day);
        assert(after == mid.push(last));
        assert forall|i: int, j: int| 0 <= i < j < after.len() implies after[i] < after[j] by {
            if j == after.len() - 1 {
                assert(after[i] == mid[i]);
                assert(mid.contains(mid[i]));
                if mid[i] != day {
                    assert(front.contains(mid[i]));
                    let k = choose|k: int| 0 <= k < front.len() && front[k] == mid[i];
                    assert(days[k] < days[days.len() - 1]);
                }
            } else {
                assert(mid[i] < mid[j]);
            }
        }
        assert forall|d: i32| #[trigger] after.contains(d) <==> days.contains(d) || d == day by {
            if after.contains(d) {
                let i = choose|i: int| 0 <= i < after.len() && after[i] == d;
                if i < mid.len() {
                    assert(mid[i] == d);
                    assert(mid.contains(d));
                    if d != day {
                        assert(front.contains(d));
                        let k = choose|k: int| 0 <= k < front.len() && front[k] == d;
                        assert(days[k] == d);
                    }
                } else {
                    assert(days[days.len() - 1] == d);
                }
            }
            if days.contains(d) {
                let i = choose|i: int| 0 <= i < days.len() && days[i] == d;
                if i < front.len() {
                    assert(front[i] == d);
                    assert(front.contains(d));
                    assert(mid.contains(d));
                    let k = choose|k: int| 0 <= k < mid.len() && mid[k] == d;
                    assert(after[k] == d);
                } else {
                    assert(after[after.len() - 1] == d);
                }
            }
            if d == day {
                assert(mid.contains(d));
                let k = choose|k: int| 0 <= k < mid.len() && mid[k] == d;
                assert(after[k] == d);
            }
        }
    }
}

/// Whether the list has a visit on the day with this count.
pub open spec fn visited(visits: Seq<Visit>, day: i32) -> bool {
    exists|i: int| 0 <= i < visits.len() && (#[trigger] visits[i]).day.0 == day
}

/// The days of a list of visits stand in strictly ascending order, and
/// they are exactly the days on which the list has a visit.
pub proof fn law_days_of(visits: Seq<Visit>)
    ensures
        ascending(days_of(visits)),
        forall|d: i32| #[trigger] days_of(visits).contains(d) <==> visited(visits, d),
    decreases visits.len(),
{
    if visits.len() > 0 {
        let front = visits.drop_last();
        let last = visits.last().day.0;
        law_days_of(front);
        lemma_with_day(days_of(front), last);
        assert forall|d: i32| #[trigger] days_of(visits).contains(d) <==> visited(visits, d) by {
            if days_of(visits).contains(d) {
                if d == last {
                    assert(visits[visits.len() - 1].day.0 == d);
                } else {
                    assert(days_of(front).contains(d));
                    assert(visited(front, d));
                    let i = choose|i: int| 0 <= i < front.len() && (#[trigger] front[i]).day.0 == d;
                    assert(visits[i].day.0 == d);
                }
            }
            if visited(visits, d) {
                let i = choose|i: int| 0 <= i < visits.len() && (#[trigger] visits[i]).day.0 == d;
                if i < front.len() {
                    assert(front[i].day.0 == d);
                    assert(visited(front, d));
                    assert(days_of(front).contains(d));
                }
            }
        }
    } else {
        assert forall|d: i32| #[trigger] days_of(visits).contains(d) <==> visited(visits, d) by {
        }
    }
}

proof fn lemma_with_day_at(days: Seq<i32>, day: i32, at: int)
    requires
        0 <= at <= days.len(),
        forall|k: int| at <= k < days.len() ==> days[k] > day,
        at > 0 ==> days[at - 1] <= day,
    ensures
        with_day(days, day) == if at > 0 && days[at - 1] == day {
            days
        } else {
            days.take(at).push(day) + days.skip(at)
        },
    decreases days.len() - at,
{
    if at == days.len() {
        if !(at > 0 && days[at - 1] == day) {
            assert(days.take(at).push(day) + days.skip(at) =~= days.push(day));
        }
    } else {
        let front = days.drop_last();
        lemma_with_day_at(front, day, at);
        if at > 0 && days[at - 1] == day {
            assert(front.push(days.last()) =~= days);
        } else {
            assert((front.take(at).push(day) + front.skip(at)).push(days.last()) =~= days.take(
                at,
            ).push(day) + days.skip(at));
        }
    }
}

/// The days on which there are visits, each once, in ascending order.
pub fn visit_days(visits: &Vec<Visit>) -> (days: Vec<i32>)
    ensures
        days@ == days_of(visits@),
{
    let mut days: Vec<i32> = Vec::new();
    let mut i: usize = 0;
    assert(visits@.take(0) =~= Seq::<Visit>::empty());
    while i < visits.len()
        invariant
            i <= visits.len(),
            days@ == days_of(visits@.take(i as int)),
        decreases visits.len() - i,
    {
        let day = visits[i].day.0;
        let mut at: usize = days.len();
        while at > 0 && days[at - 1] > day
            invariant
                at <= days.len(),
                forall|k: int| at <= k < days.len() ==> days[k] > day,
            decreases at,
        {
            at -= 1;
        }
        proof {
            lemma_with_day_at(days@, day, at as int);
            assert(visits@.take(i + 1).drop_last() =~= visits@.take(i as int));
            assert(visits@.take(i + 1).last() == visits@[i as int]);
        }
        if !(at > 0 && days[at - 1] == day) {
            let ghost before = days@;
            days.insert(at, day);
            assert(days@ =~= before.take(at as int).push(day) + before.skip(at as int));
        }
        i += 1;
    }
    assert(visits@.take(visits.len() as int) =~= visits@);
    days
}

/// What a list of plans says of one day: the date, and under it the
/// visits of that day with their status, residents first. `None` where
/// the calendar has no such day.
pub open spec fn day_block(
    visits: Seq<Visit>,
    details: Map<u64, PersonDetails>,
    today: Day,
    day: Day,
) -> Option<Seq<char>> {
    match date_text(day, today) {
        Some(date) => Some(
            date + BLOCK_HEAD_END@ + joined(
                residents_first(visits, details, None, Some(day), true),
                LINE_BREAK@,
            ),
        ),
        None => None,
    }
}

/// The blocks of the given days, or `None` where one of them has none.
pub open spec fn day_blocks(
    visits: Seq<Visit>,
    details: Map<u64, PersonDetails>,
    today: Day,
    days: Seq<i32>,
) -> Option<Seq<Seq<char>>>
    decreases days.len(),
{
    if days.len() == 0 {
        Some(Seq::<Seq<char>>::empty())
    } else {
        match (
            day_blocks(visits, details, today, days.drop_last()),
            day_block(visits, details, today, Day(days.last())),
        ) {
            (Some(front), Some(block)) => Some(front.push(block)),
            _ => None,
        }
    }
}

/// A list of plans: for each day with a visit one block, the days in
/// ascending order, an empty line between the blocks. `None` where the
/// calendar lacks one of the days.
pub open spec fn visits_text(
    visits: Seq<Visit>,
    details: Map<u64, PersonDetails>,
    today: Day,
) -> Option<Seq<char>> {
    match day_blocks(visits, details, today, days_of(visits)) {
        Some(blocks) => Some(joined(blocks, BLOCK_BREAK@)),
        None => None,
    }
}

/// Writes out a list of plans by day.
pub fn format_visits(vs: &Vec<Visit>, details: &HashMap<u64, PersonDetails>, today: Day) -> (text:
    Option<String>)
    requires
        all_known(vs@, details@),
    ensures
        crate::calendar::shown(text) == visits_text(vs@, details@, today),
{
    let days = visit_days(vs);
    let mut blocks: Vec<String> = Vec::new();
    let mut i: usize = 0;
    assert(days@.take(0) =~= Seq::<i32>::empty());
    assert(texts(blocks@) =~= Seq::<Seq<char>>::empty());
    while i < days.len()
        invariant
            i <= days.len(),
            all_known(vs@, details@),
            days@ == days_of(vs@),
            day_blocks(vs@, details@, today, days@.take(i as int)) == Some(texts(blocks@)),
        decreases days.len() - i,
    {
        let day = Day(days[i]);
        proof {
            assert(days@.take(i + 1).drop_last() =~= days@.take(i as int));
            assert(days@.take(i + 1).last() == days@[i as int]);
            assert(days@.take(days.len() as int) =~= days@);
        }
        let mut block = match format_date(day, today) {
            Some(date) => date,
            None => {
                proof {
                    lemma_blocks_fail(vs@, details@, today, days@, i + 1);
                }
                return None;
            },
        };
        let mut lines: Vec<String> = Vec::new();
        collect_lines(
            vs,
            details,
            Pick { resident: true, status: None, day: Some(day) },
            true,
            &mut lines,
        );
        collect_lines(
            vs,
            details,
            Pick { resident: false, status: None, day: Some(day) },
            true,
            &mut lines,
        );
        assert(texts(lines@) =~= residents_first(vs@, details@, None, Some(day), true));
        let body = join(&lines, LINE_BREAK);
        block.append(BLOCK_HEAD_END);
        block.append(body.as_str());
        let ghost earlier = blocks@;
        blocks.push(block);
        assert(texts(blocks@) =~= texts(earlier).push(block@));
        i += 1;
    }
    assert(days@.take(days.len() as int) =~= days@);
    Some(join(&blocks, BLOCK_BREAK))
}

/// Where the blocks of the first `n` days fail, the blocks of all fail.
proof fn lemma_blocks_fail(
    visits: Seq<Visit>,
    details: Map<u64, PersonDetails>,
    today: Day,
    days: Seq<i32>,
    n: int,
)
    requires
        0 <= n <= days.len(),
        day_blocks(visits, details, today, days.take(n)).is_none(),
    ensures
        day_blocks(visits, details, today, days).is_none(),
    decreases days.len() - n,
{
    if n == days.len() {
        assert(days.take(n) =~= days);
    } else {
        assert(days.take(n + 1).drop_last() =~= days.take(n));
        lemma_blocks_fail(visits, details, today, days, n + 1);
    }
}

pub const OPEN_HEAD: &'static str = "🟢 Хакспейс сейчас открыт";

pub const CLOSED_HEAD: &'static str = "🔒 Хакспейс сейчас закрыт";

pub const GUESTS_INSIDE: &'static str = ", но кто-то из гостей внутри???";

pub const CLOSED_HINT: &'static str =
    "\n\n💡 Если хочешь зайти, можно спросить в чате, возможно кто-то из резидентов может прийти.";

pub const INSIDE_TITLE: &'static str = "\n\n👷 Сейчас в хакспейсе:\n";

pub const PLANNED_TITLE: &'static str = "\n\n📅 Планировали зайти:\n";

pub const LEFT_TITLE: &'static str = "\n\n🌆 Уже ушли:\n";

pub const WEEK_TITLE: &'static str = "\n\n🗓️ Планы на неделю:\n\n";

pub const PLANS_TITLE: &'static str = "🗓️ Планы посещений на ближайшие полгода:\n\n";

pub const NO_PLANS: &'static str = "😔 Нет никаких планов";

/// How many days ahead of today the status looks for plans.
pub const WEEK_DAYS: i32 = 7;

/// How many days ahead of today the list of plans looks.
pub const PLANS_DAYS: i32 = 185;

/// Whether somebody is checked in who is a resident (or, for `false`, a
/// guest).
pub open spec fn inside(visits: Seq<Visit>, details: Map<u64, PersonDetails>, resident: bool) -> bool {
    exists|i: int|
        0 <= i < visits.len() && (#[trigger] visits[i]).status == VisitStatus::CheckedIn
            && details[visits[i].person.0].resident == resident
}

/// Whether somebody is checked in who is a resident (or a guest).
pub fn somebody_inside(
    visits: &Vec<Visit>,
    details: &HashMap<u64, PersonDetails>,
    resident: bool,
) -> (found: bool)
    requires
        all_known(visits@, details@),
    ensures
        found == inside(visits@, details@, resident),
{
    let mut i: usize = 0;
    while i < visits.len()
        invariant
            i <= visits.len(),
            all_known(visits@, details@),
            forall|j: int|
                0 <= j < i ==> !((#[trigger] visits[j]).status == VisitStatus::CheckedIn
                    && details@[visits[j].person.0].resident == resident),
        decreases visits.len() - i,
    {
        let visit = &visits[i];
        assert(details@.contains_key(visits@[i as int].person.0));
        let person = details.get(&visit.person.0).unwrap();
        if visit.status == VisitStatus::CheckedIn && person.resident == resident {
            return true;
        }
        i += 1;
    }
    false
}

/// The first line of the status: the space is open where a resident is
/// inside; else it is closed, with a remark where a guest is inside all
/// the same, and a hint for those who want to come.
pub open spec fn status_head(visits: Seq<Visit>, details: Map<u64, PersonDetails>) -> Seq<char> {
    if inside(visits, details, true) {
        OPEN_HEAD@
    } else {
        CLOSED_HEAD@ + if inside(visits, details, false) {
            GUESTS_INSIDE@
        } else {
            Seq::<char>::empty()
        } + CLOSED_HINT@
    }
}

/// A part of a text under its title; nothing at all where the part is
/// empty.
pub open spec fn section(title: Seq<char>, body: Seq<char>) -> Seq<char> {
    if body.len() == 0 {
        body
    } else {
        title + body
    }
}

/// The visits with a given status as lines, residents first.
pub open spec fn status_list(
    visits: Seq<Visit>,
    details: Map<u64, PersonDetails>,
    status: VisitStatus,
) -> Seq<char> {
    joined(residents_first(visits, details, Some(status), None, false), LINE_BREAK@)
}

/// The status of the space: whether it is open, who is inside, who plans
/// to come today and who has left, and the plans of the days ahead.
/// `None` where the calendar lacks a day of those plans.
pub open spec fn status_text(
    today_visits: Seq<Visit>,
    week_visits: Seq<Visit>,
    details: Map<u64, PersonDetails>,
    today: Day,
) -> Option<Seq<char>> {
    match visits_text(week_visits, details, today) {
        Some(week) => Some(
            status_head(today_visits, details) + section(
                INSIDE_TITLE@,
                status_list(today_visits, details, VisitStatus::CheckedIn),
            ) + section(PLANNED_TITLE@, status_list(today_visits, details, VisitStatus::Planned))
                + section(LEFT_TITLE@, status_list(today_visits, details, VisitStatus::CheckedOut))
                + section(WEEK_TITLE@, week),
        ),
        None => None,
    }
}

/// Adds `body` under `title` to `text`, unless `body` is empty.
fn append_section(text: &mut String, title: &str, body: &str)
    ensures
        final(text)@ == old(text)@ + section(title@, body@),
{
    if !body.is_empty() {
        text.append(title);
        text.append(body);
        assert(text@ =~= old(text)@ + section(title@, body@));
    } else {
        assert(text@ =~= old(text)@ + section(title@, body@));
    }
}

/// The visits with a given status as lines, residents first.
fn format_status_list(
    visits: &Vec<Visit>,
    details: &HashMap<u64, PersonDetails>,
    status: VisitStatus,
) -> (text: String)
    requires
        all_known(visits@, details@),
    ensures
        text@ == status_list(visits@, details@, status),
{
    let mut lines: Vec<String> = Vec::new();
    collect_lines(
        visits,
        details,
        Pick { resident: true, status: Some(status), day: None },
        false,
        &mut lines,
    );
    collect_lines(
        visits,
        details,
        Pick { resident: false, status: Some(status), day: None },
        false,
        &mut lines,
    );
    assert(texts(lines@) =~= residents_first(visits@, details@, Some(status), None, false));
    join(&lines, LINE_BREAK)
}

/// Renders the status of the space from the visits of today and those of
/// the days ahead. The details of every visitor must be known.
pub fn get_status(
    today_visits: &Vec<Visit>,
    week_visits: &Vec<Visit>,
    details: &HashMap<u64, PersonDetails>,
    today: Day,
) -> (status: Option<String>)
    requires
        all_known(today_visits@, details@),
        all_known(week_visits@, details@),
    ensures
        crate::calendar::shown(status) == status_text(
            today_visits@,
            week_visits@,
            details@,
            today,
        ),
{
    let checked_in = format_status_list(today_visits, details, VisitStatus::CheckedIn);
    let any_resident_inside = somebody_inside(today_visits, details, true);
    let mut status = String::new();
    if any_resident_inside {
        status.append(OPEN_HEAD);
    } else {
        status.append(CLOSED_HEAD);
        if somebody_inside(today_visits, details, false) {
            status.append(GUESTS_INSIDE);
        }
        status.append(CLOSED_HINT);
    }
    assert(status@ =~= status_head(today_visits@, details@));
    append_section(&mut status, INSIDE_TITLE, checked_in.as_str());
    let planned = format_status_list(today_visits, details, VisitStatus::Planned);
    append_section(&mut status, PLANNED_TITLE, planned.as_str());
    let left = format_status_list(today_visits, details, VisitStatus::CheckedOut);
    append_section(&mut status, LEFT_TITLE, left.as_str());
    let formatted_week_visits = match format_visits(week_visits, details, today) {
        Some(week) => week,
        None => {
            return None;
        },
    };
    append_section(&mut status, WEEK_TITLE, formatted_week_visits.as_str());
    Some(status)
}

/// The list of plans as a message: the plans by day under a title, or a
/// word of regret where there are none. `None` where the calendar lacks
/// a day of those plans.
pub open spec fn plans_text(
    visits: Seq<Visit>,
    details: Map<u64, PersonDetails>,
    today: Day,
) -> Option<Seq<char>> {
    match visits_text(visits, details, today) {
        Some(plans) => Some(
            if plans.len() == 0 {
                NO_PLANS@
            } else {
                PLANS_TITLE@ + plans
            },
        ),
        None => None,
    }
}

/// Renders the list of plans as a message.
pub fn format_plans(visits: &Vec<Visit>, details: &HashMap<u64, PersonDetails>, today: Day) -> (text:
    Option<String>)
    requires
        all_known(visits@, details@),
    ensures
        crate::calendar::shown(text) == plans_text(visits@, details@, today),
{
    match format_visits(visits, details, today) {
        Some(plans) => {
            if !plans.as_str().is_empty() {
                let mut text = PLANS_TITLE.to_owned();
                text.append(plans.as_str());
                Some(text)
            } else {
                Some(NO_PLANS.to_owned())
            }
        },
        None => None,
    }
}

/// The days that the status looks at for plans: from tomorrow to
/// `WEEK_DAYS` days ahead. `None` where the day count has no room.
pub fn status_window(today: Day) -> (window: Option<(Day, Day)>)
    ensures
        window == if today.0 + WEEK_DAYS <= i32::MAX {
            Some((Day((today.0 + 1) as i32), Day((today.0 + WEEK_DAYS) as i32)))
        } else {
            None::<(Day, Day)>
        },
{
    match (today.plus_days(1), today.plus_days(WEEK_DAYS)) {
        (Some(from), Some(to)) => Some((from, to)),
        _ => None,
    }
}

/// The days that the list of plans looks at: from today to `PLANS_DAYS`
/// days ahead. `None` where the day count has no room.
pub fn plans_window(today: Day) -> (window: Option<(Day, Day)>)
    ensures
        window == if today.0 + PLANS_DAYS <= i32::MAX {
            Some((today, Day((today.0 + PLANS_DAYS) as i32)))
        } else {
            None::<(Day, Day)>
        },
{
    match today.plus_days(PLANS_DAYS) {
        Some(to) => Some((today, to)),
        None => None,
    }
}

} // verus!
