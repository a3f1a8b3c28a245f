use vstd::prelude::*;

use crate::day::Day;
use crate::text::str_eq;
use crate::visits::{
    all_checked_out, is_listing, lookup, upsert_changes, upserted, without, Table, Visit,
    VisitStatus, VisitUpdate, VisitUpdateView, Visits,
};

verus! {

/// The identity of a person, as the front end supplies it.
#[derive(Debug, Clone, Copy, PartialEq, Eq, Hash, Structural)]
pub struct Uid(pub u64);

impl From<i64> for Uid {
    fn from(value: i64) -> (uid: Uid) {
        Uid(#[verifier::truncate] (value as u64))
    }
}

impl vstd::std_specs::convert::FromSpecImpl<i64> for Uid {
    open spec fn obeys_from_spec() -> bool {
        true
    }

    open spec fn from_spec(value: i64) -> Uid {
        Uid(value as u64)
    }
}

impl From<Uid> for i64 {
    fn from(val: Uid) -> (value: i64) {
        #[verifier::truncate] (val.0 as i64)
    }
}

impl vstd::std_specs::convert::FromSpecImpl<Uid> for i64 {
    open spec fn obeys_from_spec() -> bool {
        true
    }

    open spec fn from_spec(val: Uid) -> i64 {
        val.0 as i64
    }
}

/// An identity survives the trip through its persisted integer, and a
/// persisted integer survives the trip through the identity.
pub proof fn lemma_uid_round_trip(uid: Uid, value: i64)
    ensures
        Uid((uid.0 as i64) as u64) == uid,
        (Uid(value as u64).0 as i64) == value,
{
    let u: u64 = uid.0;
    assert((u as i64) as u64 == u) by (bit_vector);
    assert((value as u64) as i64 == value) by (bit_vector);
}

/// Why a text was refused.
#[derive(Debug, Clone, Copy, PartialEq, Eq, Structural)]
pub enum BackendError {
    /// The text was the reserved word `error`.
    RefusedPurpose,
}

/// A probe for the handling of failures: fails on the reserved word
/// `error`, and on no other text. The reserved word `panic` is not a valid
/// input. No action of the coordinator calls it.
pub fn maybe_panic(text: &str) -> (outcome: Result<(), BackendError>)
    requires
        text@ != "panic"@,
    ensures
        outcome == if text@ == "error"@ {
            Err::<(), BackendError>(BackendError::RefusedPurpose)
        } else {
            Ok::<(), BackendError>(())
        },
{
    if str_eq(text, "error") {
        Err(BackendError::RefusedPurpose)
    } else {
        Ok(())
    }
}

/// What the front end is to announce after an action changed the table.
#[derive(Debug, Clone)]
pub enum Announcement {
    /// Somebody arrived.
    CheckIn(VisitUpdate),
    /// Somebody plans to come.
    Plan(VisitUpdate),
    /// Somebody no longer plans to come on that day.
    Unplan { person: Uid, day: Day },
}

/// An announcement with its texts as sequences of characters.
pub enum AnnouncementView {
    CheckIn(VisitUpdateView),
    Plan(VisitUpdateView),
    Unplan { person: Uid, day: Day },
}

impl View for Announcement {
    type V = AnnouncementView;

    open spec fn view(&self) -> AnnouncementView {
        match self {
            Announcement::CheckIn(u) => AnnouncementView::CheckIn(u@),
            Announcement::Plan(u) => AnnouncementView::Plan(u@),
            Announcement::Unplan { person, day } => AnnouncementView::Unplan {
                person: *person,
                day: *day,
            },
        }
    }
}

/// The view of an optional text.
pub open spec fn text_view(text: Option<String>) -> Option<Seq<char>> {
    match text {
        Some(t) => Some(t@),
        None => None,
    }
}

/// The view of an optional announcement.
pub open spec fn announced(announcement: Option<Announcement>) -> Option<AnnouncementView> {
    match announcement {
        Some(a) => Some(a@),
        None => None,
    }
}

/// The update by which a person checks in on `today`.
pub open spec fn check_in_update(
    person: Uid,
    purpose: Option<Seq<char>>,
    today: Day,
) -> VisitUpdateView {
    VisitUpdateView { person, day: today, purpose, status: VisitStatus::CheckedIn }
}

/// The update by which a person checks out on `today`.
pub open spec fn check_out_update(person: Uid, today: Day) -> VisitUpdateView {
    VisitUpdateView { person, day: today, purpose: None, status: VisitStatus::CheckedOut }
}

/// The update by which a person plans a visit on `day`.
pub open spec fn plan_update(person: Uid, day: Day, purpose: Option<Seq<char>>) -> VisitUpdateView {
    VisitUpdateView { person, day, purpose, status: VisitStatus::Planned }
}

impl VisitUpdate {
    /// The update by which a person checks in on `today`.
    pub fn check_in(person: Uid, purpose: Option<String>, today: Day) -> (update: VisitUpdate)
        ensures
            update@ == check_in_update(person, text_view(purpose), today),
    {
        VisitUpdate { person, day: today, purpose, status: VisitStatus::CheckedIn }
    }

    /// The update by which a person checks out on `today`.
    pub fn check_out(person: Uid, today: Day) -> (update: VisitUpdate)
        ensures
            update@ == check_out_update(person, today),
    {
        VisitUpdate { person, day: today, purpose: None, status: VisitStatus::CheckedOut }
    }

    /// The update by which a person plans a visit on `day`.
    pub fn plan(person: Uid, day: Day, purpose: Option<String>) -> (update: VisitUpdate)
        ensures
            update@ == plan_update(person, day, text_view(purpose)),
    {
        VisitUpdate { person, day, purpose, status: VisitStatus::Planned }
    }
}

impl Announcement {
    /// What is announced after a check-in: the arrival, where the table
    /// reported a change.
    pub fn for_check_in(update: VisitUpdate, changed: bool) -> (announce: Option<Announcement>)
        ensures
            announced(announce) == if changed {
                Some(AnnouncementView::CheckIn(update@))
            } else {
                None::<AnnouncementView>
            },
    {
        if changed {
            Some(Announcement::CheckIn(update))
        } else {
            None
        }
    }

    /// What is announced after a plan: the plan, where the table reported
    /// a change.
    pub fn for_plan(update: VisitUpdate, changed: bool) -> (announce: Option<Announcement>)
        ensures
            announced(announce) == if changed {
                Some(AnnouncementView::Plan(update@))
            } else {
                None::<AnnouncementView>
            },
    {
        if changed {
            Some(Announcement::Plan(update))
        } else {
            None
        }
    }

    /// What is announced after a plan was given up: that it was, where the
    /// table had a record to delete.
    pub fn for_unplan(person: Uid, day: Day, deleted: bool) -> (announce: Option<Announcement>)
        ensures
            announced(announce) == if deleted {
                Some(AnnouncementView::Unplan { person, day })
            } else {
                None::<AnnouncementView>
            },
    {
        if deleted {
            Some(Announcement::Unplan { person, day })
        } else {
            None
        }
    }
}

/// The actions that a front end may ask for. Each one changes the visit
/// table first and then says what, if anything, is to be announced.
pub trait Backend: Sized {
    /// The visit table behind this coordinator.
    spec fn table(&self) -> Table;

    /// Checks `person` in for `today`. Announced where the record is new or
    /// was not checked in before.
    fn check_in(&mut self, person: Uid, purpose: Option<String>, today: Day) -> (announce: Option<
        Announcement,
    >)
        ensures
            final(self).table() == upserted(
                old(self).table(),
                check_in_update(person, text_view(purpose), today),
            ),
            announced(announce) == if upsert_changes(
                lookup(old(self).table(), (person, today)),
                check_in_update(person, text_view(purpose), today),
            ) {
                Some(AnnouncementView::CheckIn(check_in_update(person, text_view(purpose), today)))
            } else {
                None::<AnnouncementView>
            },
    ;

    /// Checks `person` out for `today`, keeping the purpose. Never
    /// announced.
    fn check_out(&mut self, person: Uid, today: Day)
        ensures
            final(self).table() == upserted(old(self).table(), check_out_update(person, today)),
    ;

    /// Plans a visit of `person` on `day`, whatever its purpose. Announced
    /// where the record is new or was not merely planned before.
    fn plan_visit(&mut self, person: Uid, day: Day, purpose: Option<String>) -> (announce: Option<
        Announcement,
    >)
        ensures
            final(self).table() == upserted(
                old(self).table(),
                plan_update(person, day, text_view(purpose)),
            ),
            announced(announce) == if upsert_changes(
                lookup(old(self).table(), (person, day)),
                plan_update(person, day, text_view(purpose)),
            ) {
                Some(AnnouncementView::Plan(plan_update(person, day, text_view(purpose))))
            } else {
                None::<AnnouncementView>
            },
    ;

    /// Deletes the record of `person` on `day`. Announced where there was
    /// one.
    fn unplan_visit(&mut self, person: Uid, day: Day) -> (announce: Option<Announcement>)
        ensures
            final(self).table() == without(old(self).table(), person, day),
            announced(announce) == if old(self).table().contains_key((person, day)) {
                Some(AnnouncementView::Unplan { person, day })
            } else {
                None::<AnnouncementView>
            },
    ;

    /// Checks out everybody who has a record on `today`.
    fn check_out_everybody(&mut self, today: Day)
        ensures
            final(self).table() == all_checked_out(old(self).table(), today),
    ;

    /// The records from `from` to `to`, both days included.
    fn get_visits(&self, from: Day, to: Day) -> (found: Vec<Visit>)
        ensures
            is_listing(found@, self.table(), from, to),
    ;
}

/// The coordinator: it owns the visit table and answers the front ends.
#[derive(Debug)]
pub struct BackendImpl {
    pub visits: Visits,
}

impl BackendImpl {
    /// A coordinator over an empty table.
    pub fn new() -> (backend: BackendImpl)
        ensures
            backend.visits@ == Map::<(Uid, Day), crate::visits::Stored>::empty(),
    {
        BackendImpl { visits: Visits::new() }
    }
}

impl Backend for BackendImpl {
    open spec fn table(&self) -> Table {
        self.visits@
    }

    fn check_in(&mut self, person: Uid, purpose: Option<String>, today: Day) -> (announce: Option<
        Announcement,
    >) {
        let visit_update = VisitUpdate::check_in(person, purpose, today);
        let updated = self.visits.upsert_visit(&visit_update);
        Announcement::for_check_in(visit_update, updated)
    }

    fn check_out(&mut self, person: Uid, today: Day) {
        let visit_update = VisitUpdate::check_out(person, today);
        self.visits.upsert_visit(&visit_update);
    }

    fn plan_visit(&mut self, person: Uid, day: Day, purpose: Option<String>) -> (announce: Option<
        Announcement,
    >) {
        let visit_update = VisitUpdate::plan(person, day, purpose);
        let updated = self.visits.upsert_visit(&visit_update);
        Announcement::for_plan(visit_update, updated)
    }

    fn unplan_visit(&mut self, person: Uid, day: Day) -> (announce: Option<Announcement>) {
        let deleted = self.visits.delete_visit(person, day);
        Announcement::for_unplan(person, day, deleted)
    }

    fn check_out_everybody(&mut self, today: Day) {
        self.visits.check_out_everybody(today);
    }

    fn get_visits(&self, from: Day, to: Day) -> (found: Vec<Visit>) {
        self.visits.get_visits(from, to)
    }
}

} // verus!
