use chrono::{Datelike, NaiveDate};
use xecut_bot::backend::Uid;
use xecut_bot::day::Day;
use xecut_bot::visits::VisitUpdate;
use xecut_bot::{Visit, VisitStatus, Visits};

fn ymd(year: i32, month: u32, day: u32) -> Day {
    Day(NaiveDate::from_ymd_opt(year, month, day)
        .unwrap()
        .num_days_from_ce())
}

fn make_visits() -> Visits {
    Visits::new()
}

#[test]
fn test_upsert_and_get_visits() {
    let mut visits = make_visits();
    let person = Uid::from(1);
    let day = ymd(2025, 8, 8);
    let update = VisitUpdate {
        person,
        day,
        purpose: Some("work".to_string()),
        status: VisitStatus::Planned,
    };
    let inserted = visits.upsert_visit(&update);
    assert!(inserted);
    let visits_vec = visits.get_visits(day, day);
    assert_eq!(
        visits_vec,
        vec![Visit {
            person,
            day,
            purpose: "work".to_string(),
            status: VisitStatus::Planned,
        }]
    );
}

#[test]
fn test_upsert_update_visit() {
    let mut visits = make_visits();
    let person = Uid::from(2);
    let day = ymd(2025, 8, 8);
    let update1 = VisitUpdate {
        person,
        day,
        purpose: Some("work".to_string()),
        status: VisitStatus::Planned,
    };
    let updated = visits.upsert_visit(&update1);
    assert!(updated);
    let update2 = VisitUpdate {
        person,
        day,
        purpose: Some("meeting".to_string()),
        status: VisitStatus::CheckedIn,
    };
    let updated = visits.upsert_visit(&update2);
    assert!(updated);
    let update3 = VisitUpdate {
        person,
        day,
        purpose: Some("meeting".to_string()),
        status: VisitStatus::CheckedIn,
    };
    let updated = visits.upsert_visit(&update3);
    assert!(!updated);
    let visits_vec = visits.get_visits(day, day);
    assert_eq!(
        visits_vec,
        vec![Visit {
            person,
            day,
            purpose: "meeting".to_string(),
            status: VisitStatus::CheckedIn,
        }]
    );
}

#[test]
fn test_delete_visit() {
    let mut visits = make_visits();
    let person = Uid::from(3);
    let day = ymd(2025, 8, 8);
    let update = VisitUpdate {
        person,
        day,
        purpose: Some("delete".to_string()),
        status: VisitStatus::Planned,
    };
    let inserted = visits.upsert_visit(&update);
    assert!(inserted);
    let deleted = visits.delete_visit(person, day);
    assert!(deleted);
    let visits_vec = visits.get_visits(day, day);
    assert_eq!(visits_vec, vec![]);
}

#[test]
fn test_delete_nonexistent_visit() {
    let mut visits = make_visits();
    let person = Uid::from(999);
    let day = ymd(2025, 8, 8);
    let deleted = visits.delete_visit(person, day);
    assert!(!deleted);
}

#[test]
fn test_cleanup() {
    let mut visits = make_visits();
    let person = Uid::from(4);
    let old_day = ymd(2025, 7, 1);
    let new_day = ymd(2025, 8, 8);
    let update_old = VisitUpdate {
        person,
        day: old_day,
        purpose: Some("old".to_string()),
        status: VisitStatus::Planned,
    };
    let update_new = VisitUpdate {
        person,
        day: new_day,
        purpose: Some("new".to_string()),
        status: VisitStatus::Planned,
    };
    let inserted = visits.upsert_visit(&update_old);
    assert!(inserted);
    let inserted = visits.upsert_visit(&update_new);
    assert!(inserted);
    let cleanup_date = ymd(2025, 8, 8);
    visits.cleanup(cleanup_date);
    let visits_vec = visits.get_visits(new_day, new_day);
    assert_eq!(
        visits_vec,
        vec![Visit {
            person,
            day: new_day,
            purpose: "new".to_string(),
            status: VisitStatus::Planned,
        }]
    );
    assert_eq!(visits.get_visits(old_day, old_day), vec![]);
}

#[test]
fn test_get_visits_range() {
    let mut visits = make_visits();
    let person1 = Uid::from(10);
    let person2 = Uid::from(11);
    let day1 = ymd(2025, 8, 7);
    let day2 = ymd(2025, 8, 8);
    let day3 = ymd(2025, 8, 9);
    let update1 = VisitUpdate {
        person: person1,
        day: day1,
        purpose: Some("foo".to_string()),
        status: VisitStatus::Planned,
    };
    let update2 = VisitUpdate {
        person: person2,
        day: day2,
        purpose: Some("bar".to_string()),
        status: VisitStatus::CheckedIn,
    };
    let inserted = visits.upsert_visit(&update1);
    assert!(inserted);
    let inserted = visits.upsert_visit(&update2);
    assert!(inserted);
    // Range covering both days
    let visits_vec = visits.get_visits(day1, day2);
    assert_eq!(visits_vec.len(), 2);
    assert!(visits_vec.contains(&Visit {
        person: person1,
        day: day1,
        purpose: "foo".to_string(),
        status: VisitStatus::Planned,
    }));
    assert!(visits_vec.contains(&Visit {
        person: person2,
        day: day2,
        purpose: "bar".to_string(),
        status: VisitStatus::CheckedIn,
    }));
    // Single day: day1
    let visits_day1 = visits.get_visits(day1, day1);
    assert_eq!(
        visits_day1,
        vec![Visit {
            person: person1,
            day: day1,
            purpose: "foo".to_string(),
            status: VisitStatus::Planned,
        }]
    );
    // Single day: day2
    let visits_day2 = visits.get_visits(day2, day2);
    assert_eq!(
        visits_day2,
        vec![Visit {
            person: person2,
            day: day2,
            purpose: "bar".to_string(),
            status: VisitStatus::CheckedIn,
        }]
    );
    // Range with no visits
    let visits_none = visits.get_visits(day3, day3);
    assert_eq!(visits_none, vec![]);
}
