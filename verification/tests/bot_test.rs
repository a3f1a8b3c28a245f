use chrono::{Datelike, NaiveDate};
use xecut_bot::backend::Uid;
use xecut_bot::bot::{
    aftermath, callback_from, check_in_purpose, day_purpose_from, parse_callback,
    parse_day_purpose, parse_visit_message, parse_visit_text, strip_command, visit_text_from,
    Aftermath, BotError, CallbackAction, Handled,
};
use xecut_bot::day::Day;
use xecut_bot::text::{skip_first_word, starts_with, strip_prefix, trim};
use xecut_bot::utils::{day_at, today_at};
use xecut_bot::VisitStatus;

fn ymd(year: i32, month: u32, day: u32) -> Day {
    Day(NaiveDate::from_ymd_opt(year, month, day)
        .unwrap()
        .num_days_from_ce())
}

#[test]
fn day_counts_from_the_year_one() {
    assert_eq!(ymd(1, 1, 1), Day(1));
    assert_eq!(ymd(1970, 1, 1), Day(719_163));
    assert_eq!(ymd(2025, 8, 8), Day(739_471));
    assert_eq!(Day(5).num_days_from_ce(), 5);
    assert_eq!(Day(5).plus_days(2), Some(Day(7)));
    assert_eq!(Day(5).plus_days(-7), Some(Day(-2)));
    assert_eq!(Day(i32::MAX).plus_days(1), None);
    assert_eq!(Day(i32::MIN).plus_days(-1), None);
    assert_eq!(Day(10).days_since(Day(4)), 6);
    assert_eq!(
        Day(i32::MIN).days_since(Day(i32::MAX)),
        i32::MIN as i64 - i32::MAX as i64
    );
}

#[test]
fn text_helpers() {
    assert!(starts_with("/planvisit x", "/planvisit"));
    assert!(starts_with("abc", ""));
    assert!(!starts_with("ab", "abc"));
    assert!(!starts_with("завтрак", "завтра!"));
    assert_eq!(strip_prefix("завтра пиво", "завтра"), Some(" пиво"));
    assert_eq!(strip_prefix("сегодня", "завтра"), None);
    assert_eq!(skip_first_word("a b c"), "b c");
    assert_eq!(skip_first_word("abc"), "");
    assert_eq!(skip_first_word(" abc"), "abc");
    assert_eq!(skip_first_word("abc "), "");
    assert_eq!(trim("  a b \t\n"), "a b");
    assert_eq!(trim(" \u{2003} "), "");
    assert_eq!(trim(""), "");
    assert_eq!(trim("x"), "x");
    assert_eq!(trim("  привет"), "привет");
}

#[test]
fn strip_command_drops_the_command_name() {
    assert_eq!(strip_command("/checkin чиню принтер"), "чиню принтер");
    assert_eq!(strip_command("/checkin"), "");
    assert_eq!(strip_command("/planvisit завтра  с друзьями"), "завтра  с друзьями");
    assert_eq!(strip_command("just text"), "just text");
    assert_eq!(strip_command(""), "");
    assert_eq!(strip_command("/"), "");
    assert_eq!(strip_command("/a "), "");
}

#[test]
fn day_words_and_dates_are_read() {
    let today = ymd(2025, 8, 8);
    assert_eq!(parse_day_purpose("", today), (today, ""));
    assert_eq!(parse_day_purpose("  паять ", today), (today, "паять"));
    assert_eq!(
        parse_day_purpose("завтра паять", today),
        (ymd(2025, 8, 9), "паять")
    );
    assert_eq!(parse_day_purpose("завтра", today), (ymd(2025, 8, 9), ""));
    assert_eq!(
        parse_day_purpose("послезавтра  3d печать ", today),
        (ymd(2025, 8, 10), "3d печать")
    );
    assert_eq!(
        parse_day_purpose("2025-08-09  hello ", today),
        (ymd(2025, 8, 9), "hello")
    );
    assert_eq!(
        parse_day_purpose("2025-12-31", today),
        (ymd(2025, 12, 31), "")
    );
    // not a date: the whole text is the purpose
    assert_eq!(
        parse_day_purpose("2025-13-40 x", today),
        (today, "2025-13-40 x")
    );
    // the day word must stand at the very start
    assert_eq!(
        parse_day_purpose(" завтра", today),
        (today, "завтра")
    );
}

#[test]
fn a_visit_is_read_from_a_message() {
    let today = ymd(2025, 8, 8);
    let author = Uid(77);
    let u = parse_visit_text(author, "завтра роботы", today);
    assert_eq!(u.person, author);
    assert_eq!(u.day, ymd(2025, 8, 9));
    assert_eq!(u.purpose, Some("роботы".to_string()));
    assert_eq!(u.status, VisitStatus::Planned);
    let u = parse_visit_text(author, "   ", today);
    assert_eq!(u.day, today);
    assert_eq!(u.purpose, None);
    let u = parse_visit_message(author, "/planvisit 2025-09-01 встреча", today);
    assert_eq!(u.day, ymd(2025, 9, 1));
    assert_eq!(u.purpose, Some("встреча".to_string()));
    let u = parse_visit_message(author, "/planvisit", today);
    assert_eq!(u.day, today);
    assert_eq!(u.purpose, None);
}

#[test]
fn check_in_purpose_is_what_follows_the_command() {
    assert_eq!(check_in_purpose("/checkin"), None);
    assert_eq!(check_in_purpose("/checkin "), None);
    assert_eq!(
        check_in_purpose("/checkin чиню принтер"),
        Some("чиню принтер".to_string())
    );
}

#[test]
fn buttons_are_decided() {
    let today = ymd(2025, 8, 8);
    let author = Uid(5);
    assert!(matches!(parse_callback(author, None, today), Ok(None)));
    match parse_callback(author, Some("/planvisit 2025-08-10"), today) {
        Ok(Some(CallbackAction::PlanVisit(u))) => {
            assert_eq!(u.person, author);
            assert_eq!(u.day, ymd(2025, 8, 10));
            assert_eq!(u.purpose, None);
            assert_eq!(u.status, VisitStatus::Planned);
        }
        other => panic!("unexpected: {:?}", other),
    }
    match parse_callback(author, Some("/planvisit"), today) {
        Ok(Some(CallbackAction::PlanVisit(u))) => assert_eq!(u.day, today),
        other => panic!("unexpected: {:?}", other),
    }
    match parse_callback(author, Some("/unplanvisit 2025-08-10"), today) {
        Ok(Some(CallbackAction::UnplanVisit { person, day })) => {
            assert_eq!(person, author);
            assert_eq!(day, ymd(2025, 8, 10));
        }
        other => panic!("unexpected: {:?}", other),
    }
    assert!(matches!(
        parse_callback(author, Some("/checkin"), today),
        Ok(Some(CallbackAction::CheckIn { person })) if person == author
    ));
    assert!(matches!(
        parse_callback(author, Some("/checkout"), today),
        Ok(Some(CallbackAction::CheckOut { person })) if person == author
    ));
    assert!(matches!(
        parse_callback(author, Some("/checkin now"), today),
        Err(BotError::UnhandledCallback)
    ));
    assert!(matches!(
        parse_callback(author, Some("hello"), today),
        Err(BotError::UnhandledCallback)
    ));
}

#[test]
fn the_day_of_presence_rolls_over_at_five() {
    // 2025-08-07 20:53:20 UTC is 22:53:20 in Belgrade
    assert_eq!(day_at(1_754_600_000), Some(ymd(2025, 8, 7)));
    assert_eq!(today_at(1_754_600_000), Some(ymd(2025, 8, 7)));
    // 2025-08-08 00:30:00 UTC is 02:30 in Belgrade: a new calendar day,
    // but still the day of presence before
    let night = 1_754_613_000;
    assert_eq!(day_at(night), Some(ymd(2025, 8, 8)));
    assert_eq!(today_at(night), Some(ymd(2025, 8, 7)));
    // 03:00:00 UTC is 05:00 in Belgrade in summer: the new day begins
    let morning = 1_754_622_000;
    assert_eq!(today_at(morning - 1), Some(ymd(2025, 8, 7)));
    assert_eq!(today_at(morning), Some(ymd(2025, 8, 8)));
    // in winter Belgrade is one hour ahead of UTC
    assert_eq!(day_at(1_736_722_800), Some(ymd(2025, 1, 13)));
    assert_eq!(day_at(1_736_722_799), Some(ymd(2025, 1, 12)));
    assert_eq!(day_at(i64::MAX), None);
    assert_eq!(today_at(i64::MIN), None);
}

#[test]
fn whatever_went_wrong_the_user_is_told() {
    assert_eq!(
        aftermath(Handled::Done),
        Aftermath { notify: false, pass_on: false }
    );
    assert_eq!(
        aftermath(Handled::Failed),
        Aftermath { notify: true, pass_on: true }
    );
    assert_eq!(
        aftermath(Handled::Crashed),
        Aftermath { notify: true, pass_on: false }
    );
}

#[test]
fn white_space_is_the_unicode_property() {
    let listed = |c: char| {
        let code = c as u32;
        (0x09..=0x0D).contains(&code)
            || code == 0x20
            || code == 0x85
            || code == 0xA0
            || code == 0x1680
            || (0x2000..=0x200A).contains(&code)
            || code == 0x2028
            || code == 0x2029
            || code == 0x202F
            || code == 0x205F
            || code == 0x3000
    };
    let mut white = 0;
    for code in 0..=0x10FFFFu32 {
        if let Some(c) = char::from_u32(code) {
            let one = c.to_string();
            assert_eq!(trim(&one).is_empty(), listed(c), "character {:x}", code);
            if listed(c) {
                white += 1;
            }
        }
    }
    assert_eq!(white, 25);
}

#[test]
fn the_day_is_decided_from_the_date_that_was_read() {
    let today = ymd(2025, 8, 8);
    // no date was read: the day is today
    assert_eq!(day_purpose_from("", today, None), (today, ""));
    assert_eq!(day_purpose_from(" паять ", today, None), (today, "паять"));
    // a date was read: it is the day, and what follows it is the purpose
    assert_eq!(
        day_purpose_from("2025-08-20 паять", today, Some((739_483, " паять"))),
        (Day(739_483), "паять")
    );
    // the day words go before any date
    assert_eq!(
        day_purpose_from("завтра x", today, Some((5, "y"))),
        (ymd(2025, 8, 9), "x")
    );
    assert_eq!(
        day_purpose_from("послезавтра", today, Some((5, "y"))),
        (ymd(2025, 8, 10), "")
    );
}

#[test]
fn a_visit_is_decided_from_the_date_that_was_read() {
    let today = ymd(2025, 8, 8);
    let u = visit_text_from(Uid(3), "", today, None);
    assert_eq!(u.person, Uid(3));
    assert_eq!(u.day, today);
    assert_eq!(u.purpose, None);
    assert_eq!(u.status, VisitStatus::Planned);
    let u = visit_text_from(Uid(3), "2025-08-20  чай ", today, Some((739_483, "  чай ")));
    assert_eq!(u.day, Day(739_483));
    assert_eq!(u.purpose, Some("чай".to_string()));
}

#[test]
fn a_button_is_decided_from_the_date_that_was_read() {
    let today = ymd(2025, 8, 8);
    let author = Uid(5);
    assert!(matches!(callback_from(author, None, today, None), Ok(None)));
    // the plain plan button names no day: the plan is for today
    match callback_from(author, Some("/planvisit"), today, None) {
        Ok(Some(CallbackAction::PlanVisit(u))) => {
            assert_eq!(u.person, author);
            assert_eq!(u.day, today);
            assert_eq!(u.purpose, None);
        }
        other => panic!("unexpected: {:?}", other),
    }
    match callback_from(author, Some("/unplanvisit 2025-08-20"), today, Some((739_483, ""))) {
        Ok(Some(CallbackAction::UnplanVisit { person, day })) => {
            assert_eq!(person, author);
            assert_eq!(day, Day(739_483));
        }
        other => panic!("unexpected: {:?}", other),
    }
    assert!(matches!(
        callback_from(author, Some("/checkin"), today, Some((1, ""))),
        Ok(Some(CallbackAction::CheckIn { person })) if person == author
    ));
    assert!(matches!(
        callback_from(author, Some("/close"), today, None),
        Err(BotError::UnhandledCallback)
    ));
}
