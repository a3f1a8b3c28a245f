use std::collections::HashMap;
use xecut_bot::announce::{
    announce_check_in, announce_plan, announce_unplan, check_in_markup, display_name,
    full_live_status_from, get_full_live_status, live_status_markup, pinned_pointer,
    plan_visit_markup, plan_visit_markup_from, post_live_reply, unplan_visit_markup,
    unplan_visit_markup_from, visitors, Button,
};
use xecut_bot::backend::Uid;
use xecut_bot::day::Day;
use xecut_bot::render::{
    date_from, date_pattern_for, format_close_date, format_date, format_day, format_person_link,
    format_plans, format_visit, format_visit_without_status, format_visits, get_status,
    plans_window, somebody_inside, status_window, visit_days, PersonDetails,
};
use xecut_bot::visits::VisitUpdate;
use xecut_bot::{Visit, VisitStatus};

// the eighth of August 2025, a Friday
const TODAY: Day = Day(739_471);

fn ann() -> PersonDetails {
    PersonDetails {
        resident: true,
        display_name: "ann".to_string(),
        link: "https://t.me/ann".to_string(),
    }
}

fn bob() -> PersonDetails {
    PersonDetails {
        resident: false,
        display_name: "bob".to_string(),
        link: "https://t.me/bob".to_string(),
    }
}

fn details() -> HashMap<u64, PersonDetails> {
    let mut details = HashMap::new();
    details.insert(1u64, ann());
    details.insert(2u64, bob());
    details
}

fn visit(person: u64, day: i32, purpose: &str, status: VisitStatus) -> Visit {
    Visit {
        person: Uid(person),
        day: Day(day),
        purpose: purpose.to_string(),
        status,
    }
}

fn button(label: &str, data: &str) -> Button {
    Button {
        label: label.to_string(),
        data: data.to_string(),
    }
}

#[test]
fn close_days_have_words() {
    assert_eq!(format_close_date(TODAY, TODAY), Some("сегодня"));
    assert_eq!(format_close_date(Day(TODAY.0 + 1), TODAY), Some("завтра"));
    assert_eq!(format_close_date(Day(TODAY.0 + 2), TODAY), Some("послезавтра"));
    assert_eq!(format_close_date(Day(TODAY.0 + 3), TODAY), None);
    assert_eq!(format_close_date(Day(TODAY.0 - 1), TODAY), None);
    assert_eq!(format_close_date(Day(i32::MAX), Day(i32::MIN)), None);
}

#[test]
fn dates_are_written_in_lower_case() {
    assert_eq!(
        format_date(TODAY, TODAY),
        Some("сегодня, 8 августа (пятница)".to_string())
    );
    assert_eq!(
        format_date(Day(TODAY.0 + 5), TODAY),
        Some("13 августа (среда)".to_string())
    );
    // sixty days ahead still goes without the year, sixty-one with it
    assert_eq!(
        format_date(Day(TODAY.0 + 60), TODAY),
        Some("7 октября (вторник)".to_string())
    );
    assert_eq!(
        format_date(Day(TODAY.0 + 61), TODAY),
        Some("8 октября 2025 (среда)".to_string())
    );
    assert_eq!(
        format_date(Day(TODAY.0 + 100), TODAY),
        Some("16 ноября 2025 (воскресенье)".to_string())
    );
    // the calendar has no such day
    assert_eq!(format_date(Day(i32::MAX), TODAY), None);
    assert_eq!(format_date(Day(i32::MIN), TODAY), None);
}

#[test]
fn persons_and_visits_as_lines() {
    assert_eq!(
        format_person_link(&ann()),
        "<a href=\"https://t.me/ann\">ann</a>®️"
    );
    assert_eq!(
        format_person_link(&bob()),
        "<a href=\"https://t.me/bob\">bob</a>"
    );
    let v = visit(2, TODAY.0, "print", VisitStatus::CheckedIn);
    assert_eq!(
        format_visit_without_status(&v, &bob()),
        "<a href=\"https://t.me/bob\">bob</a>: \"print\""
    );
    assert_eq!(
        format_visit(&v, &bob()),
        "<a href=\"https://t.me/bob\">bob</a>: \"print\" (сейчас в спейсе 👷)"
    );
    let v = visit(2, TODAY.0, "", VisitStatus::CheckedOut);
    assert_eq!(
        format_visit_without_status(&v, &bob()),
        "<a href=\"https://t.me/bob\">bob</a>"
    );
    assert_eq!(
        format_visit(&v, &bob()),
        "<a href=\"https://t.me/bob\">bob</a> (ушёл 🌆)"
    );
    let v = visit(1, TODAY.0, "", VisitStatus::Planned);
    assert_eq!(
        format_visit(&v, &ann()),
        "<a href=\"https://t.me/ann\">ann</a>®️"
    );
}

#[test]
fn a_day_lists_residents_first() {
    let vs = vec![
        visit(2, TODAY.0, "x", VisitStatus::Planned),
        visit(1, TODAY.0, "y", VisitStatus::CheckedIn),
    ];
    assert_eq!(
        format_day(&vs, &details()),
        "<a href=\"https://t.me/ann\">ann</a>®️: \"y\" (сейчас в спейсе 👷)\n<a href=\"https://t.me/bob\">bob</a>: \"x\""
    );
    assert_eq!(format_day(&vec![], &details()), "");
}

#[test]
fn days_are_listed_once_and_ascending() {
    let vs = vec![
        visit(1, 30, "", VisitStatus::Planned),
        visit(2, 10, "", VisitStatus::Planned),
        visit(1, 20, "", VisitStatus::Planned),
        visit(2, 30, "", VisitStatus::Planned),
        visit(1, 10, "", VisitStatus::Planned),
        visit(1, -5, "", VisitStatus::Planned),
    ];
    assert_eq!(visit_days(&vs), vec![-5, 10, 20, 30]);
    assert_eq!(visit_days(&vec![]), Vec::<i32>::new());
}

#[test]
fn plans_are_grouped_by_day() {
    let vs = vec![
        visit(2, TODAY.0 + 2, "x", VisitStatus::Planned),
        visit(1, TODAY.0 + 1, "", VisitStatus::Planned),
        visit(1, TODAY.0 + 2, "y", VisitStatus::Planned),
    ];
    let expected = "завтра, 9 августа (суббота):\n<a href=\"https://t.me/ann\">ann</a>®️\n\nпослезавтра, 10 августа (воскресенье):\n<a href=\"https://t.me/ann\">ann</a>®️: \"y\"\n<a href=\"https://t.me/bob\">bob</a>: \"x\"";
    assert_eq!(format_visits(&vs, &details(), TODAY), Some(expected.to_string()));
    assert_eq!(format_visits(&vec![], &details(), TODAY), Some(String::new()));
    assert_eq!(
        format_plans(&vs, &details(), TODAY),
        Some(format!("🗓️ Планы посещений на ближайшие полгода:\n\n{expected}"))
    );
    assert_eq!(
        format_plans(&vec![], &details(), TODAY),
        Some("😔 Нет никаких планов".to_string())
    );
    let beyond = vec![visit(1, i32::MAX, "", VisitStatus::Planned)];
    assert_eq!(format_visits(&beyond, &details(), TODAY), None);
    assert_eq!(format_plans(&beyond, &details(), TODAY), None);
}

#[test]
fn status_of_an_open_space() {
    let today_visits = vec![
        visit(2, TODAY.0, "print", VisitStatus::CheckedIn),
        visit(1, TODAY.0, "", VisitStatus::CheckedIn),
    ];
    let week_visits = vec![
        visit(2, TODAY.0 + 2, "x", VisitStatus::Planned),
        visit(1, TODAY.0 + 1, "", VisitStatus::Planned),
        visit(1, TODAY.0 + 2, "y", VisitStatus::Planned),
    ];
    assert!(somebody_inside(&today_visits, &details(), true));
    assert!(somebody_inside(&today_visits, &details(), false));
    assert_eq!(
        get_status(&today_visits, &week_visits, &details(), TODAY),
        Some(
            "🟢 Хакспейс сейчас открыт\n\n👷 Сейчас в хакспейсе:\n<a href=\"https://t.me/ann\">ann</a>®️\n<a href=\"https://t.me/bob\">bob</a>: \"print\"\n\n🗓️ Планы на неделю:\n\nзавтра, 9 августа (суббота):\n<a href=\"https://t.me/ann\">ann</a>®️\n\nпослезавтра, 10 августа (воскресенье):\n<a href=\"https://t.me/ann\">ann</a>®️: \"y\"\n<a href=\"https://t.me/bob\">bob</a>: \"x\""
                .to_string()
        )
    );
}

#[test]
fn status_of_a_closed_space() {
    let hint = "\n\n💡 Если хочешь зайти, можно спросить в чате, возможно кто-то из резидентов может прийти.";
    assert_eq!(
        get_status(&vec![], &vec![], &details(), TODAY),
        Some(format!("🔒 Хакспейс сейчас закрыт{hint}"))
    );
    let today_visits = vec![
        visit(2, TODAY.0, "", VisitStatus::CheckedIn),
        visit(1, TODAY.0, "later", VisitStatus::Planned),
        visit(1, TODAY.0, "", VisitStatus::CheckedOut),
    ];
    assert!(!somebody_inside(&today_visits, &details(), true));
    assert_eq!(
        get_status(&today_visits, &vec![], &details(), TODAY),
        Some(format!(
            "🔒 Хакспейс сейчас закрыт, но кто-то из гостей внутри???{hint}\n\n👷 Сейчас в хакспейсе:\n<a href=\"https://t.me/bob\">bob</a>\n\n📅 Планировали зайти:\n<a href=\"https://t.me/ann\">ann</a>®️: \"later\"\n\n🌆 Уже ушли:\n<a href=\"https://t.me/ann\">ann</a>®️"
        ))
    );
    let beyond = vec![visit(1, i32::MIN, "", VisitStatus::Planned)];
    assert_eq!(get_status(&vec![], &beyond, &details(), TODAY), None);
}

#[test]
fn windows_of_the_status_and_of_the_plans() {
    assert_eq!(
        status_window(TODAY),
        Some((Day(TODAY.0 + 1), Day(TODAY.0 + 7)))
    );
    assert_eq!(plans_window(TODAY), Some((TODAY, Day(TODAY.0 + 185))));
    assert_eq!(status_window(Day(i32::MAX - 6)), None);
    assert_eq!(
        status_window(Day(i32::MAX - 7)),
        Some((Day(i32::MAX - 6), Day(i32::MAX)))
    );
    assert_eq!(plans_window(Day(i32::MAX - 184)), None);
}

#[test]
fn live_status_carries_the_moment_of_its_update() {
    assert_eq!(
        get_full_live_status("s", 1_754_600_000),
        Some("s\n\nОбновлено: Чт 07 авг 2025 22:53:20 CEST".to_string())
    );
    assert_eq!(get_full_live_status("s", i64::MAX), None);
}

#[test]
fn announcements() {
    let named = VisitUpdate {
        person: Uid(1),
        day: Day(TODAY.0 + 1),
        purpose: Some("роботы".to_string()),
        status: VisitStatus::Planned,
    };
    let bare = VisitUpdate {
        person: Uid(2),
        day: Day(TODAY.0 + 70),
        purpose: None,
        status: VisitStatus::Planned,
    };
    let empty = VisitUpdate {
        person: Uid(2),
        day: TODAY,
        purpose: Some(String::new()),
        status: VisitStatus::CheckedIn,
    };
    assert_eq!(
        announce_check_in(&ann(), &named),
        "👷 <a href=\"https://t.me/ann\">ann</a>®️ пришёл в хакспейс: \"роботы\""
    );
    assert_eq!(
        announce_check_in(&bob(), &bare),
        "👷 <a href=\"https://t.me/bob\">bob</a> пришёл в хакспейс"
    );
    // a purpose that is named is quoted, even where it is empty
    assert_eq!(
        announce_check_in(&bob(), &empty),
        "👷 <a href=\"https://t.me/bob\">bob</a> пришёл в хакспейс: \"\""
    );
    assert_eq!(
        announce_plan(&ann(), &named, TODAY),
        Some(
            "🗓️🚋 <a href=\"https://t.me/ann\">ann</a>®️ планирует зайти в хакспейс завтра, 9 августа (суббота): \"роботы\""
                .to_string()
        )
    );
    assert_eq!(
        announce_plan(&bob(), &bare, TODAY),
        Some(
            "🗓️🚋 <a href=\"https://t.me/bob\">bob</a> планирует зайти в хакспейс 17 октября 2025 (пятница)"
                .to_string()
        )
    );
    assert_eq!(
        announce_unplan(&bob(), TODAY, TODAY),
        Some(
            "🗓️🏠 <a href=\"https://t.me/bob\">bob</a> больше не планирует зайти в хакспейс сегодня, 8 августа (пятница)"
                .to_string()
        )
    );
    assert_eq!(announce_unplan(&bob(), Day(i32::MAX), TODAY), None);
}

#[test]
fn buttons() {
    assert_eq!(
        live_status_markup(),
        vec![
            vec![
                button("👷 Я зашёл", "/checkin"),
                button("🌆 Я ушёл", "/checkout")
            ],
            vec![
                button("🚋 Зайду сегодня", "/planvisit"),
                button("🏠 Передумал", "/unplanvisit")
            ],
        ]
    );
    assert_eq!(
        check_in_markup(),
        vec![vec![
            button("👷 Я тоже в спейсе", "/checkin"),
            button("🌆 А я уже ушёл", "/checkout")
        ]]
    );
    assert_eq!(
        plan_visit_markup(Day(TODAY.0 + 1), TODAY),
        Some(vec![vec![
            button("🚋 Я тоже зайду завтра", "/planvisit 2025-08-09"),
            button("🏠 Или нет", "/unplanvisit 2025-08-09")
        ]])
    );
    assert_eq!(
        plan_visit_markup(Day(TODAY.0 + 30), TODAY),
        Some(vec![vec![
            button("🚋 Я тоже зайду в этот день", "/planvisit 2025-09-07"),
            button("🏠 Или нет", "/unplanvisit 2025-09-07")
        ]])
    );
    assert_eq!(
        unplan_visit_markup(TODAY, TODAY),
        Some(vec![vec![
            button("🏠 Я тоже не приду сегодня", "/unplanvisit 2025-08-08"),
            button("🚋 Или приду", "/planvisit 2025-08-08")
        ]])
    );
    assert_eq!(plan_visit_markup(Day(i32::MAX), TODAY), None);
    assert_eq!(unplan_visit_markup(Day(i32::MIN), TODAY), None);
}

#[test]
fn visitors_are_named_once() {
    let vs = vec![
        visit(3, 1, "", VisitStatus::Planned),
        visit(1, 1, "", VisitStatus::Planned),
        visit(3, 2, "", VisitStatus::Planned),
        visit(2, 2, "", VisitStatus::Planned),
        visit(1, 3, "", VisitStatus::Planned),
    ];
    assert_eq!(visitors(&vs), vec![Uid(3), Uid(1), Uid(2)]);
    assert_eq!(visitors(&vec![]), Vec::<Uid>::new());
}

#[test]
fn a_button_names_the_day_it_was_made_for() {
    let author = Uid(9);
    for ahead in [0, 1, 2, 3, 40, 400] {
        let day = Day(TODAY.0 + ahead);
        let rows = plan_visit_markup(day, TODAY).unwrap();
        match xecut_bot::bot::parse_callback(author, Some(&rows[0][0].data), TODAY) {
            Ok(Some(xecut_bot::bot::CallbackAction::PlanVisit(update))) => {
                assert_eq!(update.day, day);
                assert_eq!(update.person, author);
                assert_eq!(update.purpose, None);
            }
            other => panic!("unexpected: {:?}", other),
        }
        match xecut_bot::bot::parse_callback(author, Some(&rows[0][1].data), TODAY) {
            Ok(Some(xecut_bot::bot::CallbackAction::UnplanVisit { person, day: named })) => {
                assert_eq!(named, day);
                assert_eq!(person, author);
            }
            other => panic!("unexpected: {:?}", other),
        }
    }
}

#[test]
fn a_date_far_ahead_is_written_with_its_year() {
    assert_eq!(date_pattern_for(TODAY, TODAY), "%-d %B (%A)");
    assert_eq!(date_pattern_for(Day(TODAY.0 + 60), TODAY), "%-d %B (%A)");
    assert_eq!(date_pattern_for(Day(TODAY.0 + 61), TODAY), "%-d %B %Y (%A)");
    assert_eq!(date_pattern_for(Day(TODAY.0 - 400), TODAY), "%-d %B (%A)");
    assert_eq!(date_pattern_for(Day(i32::MAX), Day(i32::MIN)), "%-d %B %Y (%A)");
}

#[test]
fn a_close_day_gets_its_word_in_front() {
    assert_eq!(date_from(TODAY, TODAY, "x".to_string()), "сегодня, x");
    assert_eq!(date_from(Day(TODAY.0 + 1), TODAY, "x".to_string()), "завтра, x");
    assert_eq!(
        date_from(Day(TODAY.0 + 2), TODAY, "x".to_string()),
        "послезавтра, x"
    );
    assert_eq!(date_from(Day(TODAY.0 + 3), TODAY, "x".to_string()), "x");
    assert_eq!(date_from(Day(TODAY.0 - 1), TODAY, String::new()), "");
}

#[test]
fn the_moment_stands_under_the_live_status() {
    assert_eq!(
        full_live_status_from("status", "now"),
        "status\n\nОбновлено: now"
    );
    assert_eq!(full_live_status_from("", ""), "\n\nОбновлено: ");
}

#[test]
fn buttons_are_made_from_the_written_date() {
    assert_eq!(
        plan_visit_markup_from(Day(TODAY.0 + 2), TODAY, "D"),
        vec![vec![
            button("🚋 Я тоже зайду послезавтра", "/planvisit D"),
            button("🏠 Или нет", "/unplanvisit D")
        ]]
    );
    assert_eq!(
        unplan_visit_markup_from(Day(TODAY.0 + 9), TODAY, "2025-08-17"),
        vec![vec![
            button("🏠 Я тоже не приду в этот день", "/unplanvisit 2025-08-17"),
            button("🚋 Или приду", "/planvisit 2025-08-17")
        ]]
    );
}

#[test]
fn small_wordings() {
    assert_eq!(
        display_name(Some("ann".to_string()), "Ann Lee".to_string()),
        "ann"
    );
    assert_eq!(display_name(None, "Ann Lee".to_string()), "Ann Lee");
    assert_eq!(
        post_live_reply("https://t.me/c/1/2", Some("Live")),
        "✔️ Запостил в <a href=\"https://t.me/c/1/2\">Live</a>"
    );
    assert_eq!(
        post_live_reply("u", None),
        "✔️ Запостил в <a href=\"u\">канал</a>"
    );
    assert_eq!(
        pinned_pointer("https://t.me/c/1/3"),
        "Посмотри в <a href=\"https://t.me/c/1/3\">закрепе</a>"
    );
}
