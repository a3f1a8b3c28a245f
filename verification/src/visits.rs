use vstd::prelude::*;

use crate::backend::Uid;
use crate::day::Day;

verus! {

/// Where a person stands with respect to one day's visit.
#[derive(Debug, Clone, Copy, PartialEq, Eq, Structural)]
pub enum VisitStatus {
    Planned,
    CheckedIn,
    CheckedOut,
}

impl VisitStatus {
    /// The small integer under which a status is persisted.
    pub open spec fn spec_code(self) -> int {
        match self {
            VisitStatus::Planned => 0,
            VisitStatus::CheckedIn => 1,
            VisitStatus::CheckedOut => 2,
        }
    }

    /// The status that a persisted integer stands for; every integer that
    /// is not a known code reads as `Planned`.
    pub open spec fn spec_from_code(code: int) -> VisitStatus {
        if code == 1 {
            VisitStatus::CheckedIn
        } else if code == 2 {
            VisitStatus::CheckedOut
        } else {
            VisitStatus::Planned
        }
    }

    /// The status that a persisted column stands for. Whatever is not one
    /// of the three codes reads as `Planned`, however large it is.
    pub fn from_code(code: i64) -> (status: VisitStatus)
        ensures
            status == VisitStatus::spec_from_code(code as int),
    {
        if code == 1 {
            VisitStatus::CheckedIn
        } else if code == 2 {
            VisitStatus::CheckedOut
        } else {
            VisitStatus::Planned
        }
    }
}

impl From<VisitStatus> for i32 {
    fn from(status: VisitStatus) -> (code: i32) {
        match status {
            VisitStatus::Planned => 0,
            VisitStatus::CheckedIn => 1,
            VisitStatus::CheckedOut => 2,
        }
    }
}

impl vstd::std_specs::convert::FromSpecImpl<VisitStatus> for i32 {
    open spec fn obeys_from_spec() -> bool {
        true
    }

    open spec fn from_spec(status: VisitStatus) -> i32 {
        match status {
            VisitStatus::Planned => 0i32,
            VisitStatus::CheckedIn => 1i32,
            VisitStatus::CheckedOut => 2i32,
        }
    }
}

impl From<i32> for VisitStatus {
    fn from(val: i32) -> (status: VisitStatus) {
        match val {
            1 => VisitStatus::CheckedIn,
            2 => VisitStatus::CheckedOut,
            _ => VisitStatus::Planned,
        }
    }
}

impl vstd::std_specs::convert::FromSpecImpl<i32> for VisitStatus {
    open spec fn obeys_from_spec() -> bool {
        true
    }

    open spec fn from_spec(val: i32) -> VisitStatus {
        VisitStatus::spec_from_code(val as int)
    }
}

/// Writing a status down and reading it back gives the same status, and
/// the codes are 0, 1 and 2.
pub proof fn lemma_status_code_round_trip(status: VisitStatus)
    ensures
        VisitStatus::spec_from_code(status.spec_code()) == status,
        0 <= status.spec_code() <= 2,
{
}

/// What the table holds for one person on one day.
pub struct Stored {
    pub purpose: Seq<char>,
    pub status: VisitStatus,
}

/// The visit table as a mathematical map: at most one entry for each pair
/// of person and day.
pub type Table = Map<(Uid, Day), Stored>;

/// The current record of one person's presence on one day.
#[derive(Debug, Clone, PartialEq, Eq)]
pub struct Visit {
    pub person: Uid,
    pub day: Day,
    pub purpose: String,
    pub status: VisitStatus,
}

/// A visit with its purpose as a sequence of characters.
pub struct VisitView {
    pub person: Uid,
    pub day: Day,
    pub purpose: Seq<char>,
    pub status: VisitStatus,
}

impl VisitView {
    pub open spec fn key(self) -> (Uid, Day) {
        (self.person, self.day)
    }

    pub open spec fn stored(self) -> Stored {
        Stored { purpose: self.purpose, status: self.status }
    }
}

impl View for Visit {
    type V = VisitView;

    open spec fn view(&self) -> VisitView {
        VisitView {
            person: self.person,
            day: self.day,
            purpose: self.purpose@,
            status: self.status,
        }
    }
}

impl Visit {
    /// A copy of this record.
    pub fn duplicate(&self) -> (copy: Visit)
        ensures
            copy@ == self@,
    {
        Visit {
            person: self.person,
            day: self.day,
            purpose: self.purpose.clone(),
            status: self.status,
        }
    }

    /// The record that a persisted row stands for. The day keeps the low
    /// 32 bits of its column, and a status that is none of the three codes
    /// reads as `Planned`.
    pub fn from_row(person: i64, day: i64, purpose: String, status: i64) -> (visit: Visit)
        ensures
            visit@ == (VisitView {
                person: Uid(person as u64),
                day: Day(day as i32),
                purpose: purpose@,
                status: VisitStatus::spec_from_code(status as int),
            }),
    {
        Visit {
            person: Uid::from(person),
            day: Day(#[verifier::truncate] (day as i32)),
            purpose,
            status: VisitStatus::from_code(status),
        }
    }
}

/// A request to write one person's visit on one day. A purpose of `None`
/// leaves the purpose of an existing record as it is, and gives a new
/// record the empty purpose.
#[derive(Debug, Clone)]
pub struct VisitUpdate {
    pub person: Uid,
    pub day: Day,
    pub purpose: Option<String>,
    pub status: VisitStatus,
}

/// An update with its purpose as a sequence of characters.
pub struct VisitUpdateView {
    pub person: Uid,
    pub day: Day,
    pub purpose: Option<Seq<char>>,
    pub status: VisitStatus,
}

impl VisitUpdateView {
    pub open spec fn key(self) -> (Uid, Day) {
        (self.person, self.day)
    }
}

impl View for VisitUpdate {
    type V = VisitUpdateView;

    open spec fn view(&self) -> VisitUpdateView {
        VisitUpdateView {
            person: self.person,
            day: self.day,
            purpose: match self.purpose {
                Some(p) => Some(p@),
                None => None,
            },
            status: self.status,
        }
    }
}

/// How many days of history the table keeps.
pub const VISIT_HISTORY_DAYS: i32 = 30;

/// How many seconds pass between two retention sweeps: four hours.
pub const VISITS_CLEANUP_INTERVAL_SECONDS: u64 = 4 * 60 * 60;

/// What the table holds under a key, if anything.
pub open spec fn lookup(table: Table, key: (Uid, Day)) -> Option<Stored> {
    if table.contains_key(key) {
        Some(table[key])
    } else {
        None
    }
}

/// What stands under the update's key once the update is applied: the
/// update's status, and the update's purpose, or else the purpose that was
/// there, or else the empty one.
pub open spec fn stored_after(existing: Option<Stored>, update: VisitUpdateView) -> Stored {
    Stored {
        purpose: match update.purpose {
            Some(p) => p,
            None => match existing {
                Some(e) => e.purpose,
                None => Seq::empty(),
            },
        },
        status: update.status,
    }
}

/// Whether an update is worth announcing: it made the record, or it
/// changed the record's status.
pub open spec fn upsert_changes(existing: Option<Stored>, update: VisitUpdateView) -> bool {
    match existing {
        None => true,
        Some(e) => e.status != update.status,
    }
}

/// Whether an update has anything to write over an existing record.
pub open spec fn upsert_writes(existing: Option<Stored>, update: VisitUpdateView) -> bool {
    match existing {
        None => true,
        Some(e) => update.purpose.is_some() || e.status != update.status,
    }
}

/// The table after an update.
pub open spec fn upserted(table: Table, update: VisitUpdateView) -> Table {
    table.insert(update.key(), stored_after(lookup(table, update.key()), update))
}

/// The table without the record of one person on one day.
pub open spec fn without(table: Table, person: Uid, day: Day) -> Table {
    table.remove((person, day))
}

/// The table after everybody on `day` was checked out: the same keys, the
/// same purposes, and status `CheckedOut` on that day.
pub open spec fn all_checked_out(table: Table, day: Day) -> Table {
    Map::new(
        |k: (Uid, Day)| table.contains_key(k),
        |k: (Uid, Day)|
            if k.1 == day {
                Stored { purpose: table[k].purpose, status: VisitStatus::CheckedOut }
            } else {
                table[k]
            },
    )
}

/// The first day count that the retention sweep keeps, seen from `now`.
pub open spec fn retention_cutoff(now: Day) -> int {
    now.number() - VISIT_HISTORY_DAYS
}

/// The table after the retention sweep: every record whose day lies
/// before the cutoff is gone, every other record stays as it was.
pub open spec fn swept(table: Table, now: Day) -> Table {
    Map::new(
        |k: (Uid, Day)| table.contains_key(k) && k.1.number() >= retention_cutoff(now),
        |k: (Uid, Day)| table[k],
    )
}

/// Whether `day` lies in the range from `from` to `to`, both ends included.
pub open spec fn in_range(day: Day, from: Day, to: Day) -> bool {
    from.number() <= day.number() <= to.number()
}

/// Whether `rows` lists the records of `table` that lie in the range,
/// each of them once, in some order.
pub open spec fn is_listing(rows: Seq<Visit>, table: Table, from: Day, to: Day) -> bool {
    &&& forall|i: int|
        0 <= i < rows.len() ==> {
            &&& table.contains_key(#[trigger] rows[i]@.key())
            &&& table[rows[i]@.key()] == rows[i]@.stored()
            &&& in_range(rows[i].day, from, to)
        }
    &&& forall|k: (Uid, Day)|
        #[trigger] table.contains_key(k) && in_range(k.1, from, to) ==> exists|i: int|
            0 <= i < rows.len() && #[trigger] rows[i]@.key() == k
    &&& keys_distinct(rows)
}

/// Whether one of the rows is the record `visit`.
pub open spec fn shows(rows: Seq<Visit>, visit: VisitView) -> bool {
    exists|i: int| 0 <= i < rows.len() && (#[trigger] rows[i])@ == visit
}

/// No two of the rows stand for the same person on the same day.
pub open spec fn keys_distinct(rows: Seq<Visit>) -> bool {
    forall|i: int, j: int|
        0 <= i < j < rows.len() ==> #[trigger] rows[i]@.key() != #[trigger] rows[j]@.key()
}

/// The table that a sequence of rows stands for.
pub open spec fn table_of(rows: Seq<Visit>) -> Table {
    Map::new(
        |k: (Uid, Day)| exists|i: int| 0 <= i < rows.len() && #[trigger] rows[i]@.key() == k,
        |k: (Uid, Day)| rows[choose|i: int| 0 <= i < rows.len() && #[trigger] rows[i]@.key() == k]@.stored(),
    )
}

/// With distinct keys, each row is what the table holds under its key.
pub proof fn lemma_table_of_row(rows: Seq<Visit>, i: int)
    requires
        keys_distinct(rows),
        0 <= i < rows.len(),
    ensures
        table_of(rows).contains_key(rows[i]@.key()),
        table_of(rows)[rows[i]@.key()] == rows[i]@.stored(),
{
    let k = rows[i]@.key();
    let j = choose|j: int| 0 <= j < rows.len() && #[trigger] rows[j]@.key() == k;
    assert(rows[j]@.key() == rows[i]@.key());
    if j < i {
        assert(rows[j]@.key() != rows[i]@.key());
    } else if i < j {
        assert(rows[i]@.key() != rows[j]@.key());
    }
}

/// Rows with distinct keys stand for `table` where each row is an entry of
/// `table` and each entry of `table` is a row.
pub proof fn lemma_rows_stand_for(rows: Seq<Visit>, table: Table)
    requires
        keys_distinct(rows),
        forall|i: int|
            0 <= i < rows.len() ==> table.contains_key(#[trigger] rows[i]@.key()) && table[rows[i]@.key()]
                == rows[i]@.stored(),
        forall|k: (Uid, Day)| #[trigger]
            table.contains_key(k) ==> exists|i: int|
                0 <= i < rows.len() && #[trigger] rows[i]@.key() == k,
    ensures
        table_of(rows) == table,
{
    assert forall|k: (Uid, Day)| table_of(rows).contains_key(k) implies table.contains_key(k)
        && table_of(rows)[k] == table[k] by {
        let i = choose|i: int| 0 <= i < rows.len() && #[trigger] rows[i]@.key() == k;
        lemma_table_of_row(rows, i);
    }
    assert(table_of(rows) =~= table);
}

/// What an update does to one record, decided from what the table holds
/// under the update's key.
#[derive(Debug, Clone, PartialEq, Eq)]
pub enum UpsertAction {
    /// No record is there: insert one with this purpose and status.
    Insert { purpose: String, status: VisitStatus },
    /// A record is there: overwrite its purpose and status with these.
    Update { purpose: String, status: VisitStatus },
    /// A record is there and the update asks for no write.
    Keep,
}

/// The decision on one update: what to write, and whether the update is
/// worth announcing.
#[derive(Debug, Clone, PartialEq, Eq)]
pub struct UpsertPlan {
    pub action: UpsertAction,
    pub changed: bool,
}

/// Whether `plan` is the decision on `update` where the table holds
/// `existing` under the update's key.
pub open spec fn is_upsert_plan(
    plan: UpsertPlan,
    existing: Option<Stored>,
    update: VisitUpdateView,
) -> bool {
    &&& plan.changed == upsert_changes(existing, update)
    &&& match plan.action {
        UpsertAction::Insert { purpose, status } => {
            &&& existing.is_none()
            &&& (Stored { purpose: purpose@, status }) == stored_after(existing, update)
        },
        UpsertAction::Update { purpose, status } => {
            &&& existing.is_some()
            &&& upsert_writes(existing, update)
            &&& (Stored { purpose: purpose@, status }) == stored_after(existing, update)
        },
        UpsertAction::Keep => existing.is_some() && !upsert_writes(existing, update),
    }
}

/// The table after an action was carried out under a key.
pub open spec fn carried_out(table: Table, key: (Uid, Day), action: UpsertAction) -> Table {
    match action {
        UpsertAction::Insert { purpose, status } => table.insert(
            key,
            Stored { purpose: purpose@, status },
        ),
        UpsertAction::Update { purpose, status } => table.insert(
            key,
            Stored { purpose: purpose@, status },
        ),
        UpsertAction::Keep => table,
    }
}

/// Decides one update. `existing` is the purpose and the status that the
/// table holds under the update's key, or `None` where it holds nothing.
/// A record that is missing is inserted and announced; an existing one is
/// overwritten where the update names a purpose or another status, and
/// announced only where the status differs.
pub fn plan_upsert(existing: Option<(&String, VisitStatus)>, update: &VisitUpdate) -> (plan:
    UpsertPlan)
    ensures
        is_upsert_plan(
            plan,
            match existing {
                Some(e) => Some(Stored { purpose: e.0@, status: e.1 }),
                None => None,
            },
            update@,
        ),
{
    match existing {
        Some((old_purpose, old_status)) => {
            let should_update_purpose = update.purpose.is_some();
            let should_update_status = update.status != old_status;
            if should_update_purpose || should_update_status {
                let purpose = match &update.purpose {
                    Some(p) => p.clone(),
                    None => old_purpose.clone(),
                };
                UpsertPlan {
                    action: UpsertAction::Update { purpose, status: update.status },
                    changed: should_update_status,
                }
            } else {
                UpsertPlan { action: UpsertAction::Keep, changed: should_update_status }
            }
        },
        None => {
            let purpose = match &update.purpose {
                Some(p) => p.clone(),
                None => String::new(),
            };
            UpsertPlan {
                action: UpsertAction::Insert { purpose, status: update.status },
                changed: true,
            }
        },
    }
}

/// The day count before which the retention sweep deletes, seen from
/// `now`: records on the cutoff day itself are kept.
pub fn cleanup_cutoff(now: Day) -> (cutoff: i64)
    ensures
        cutoff == retention_cutoff(now),
{
    now.0 as i64 - VISIT_HISTORY_DAYS as i64
}

/// The visit table: for each person and day at most one record.
#[derive(Debug)]
pub struct Visits {
    rows: Vec<Visit>,
}

impl View for Visits {
    type V = Table;

    closed spec fn view(&self) -> Table {
        table_of(self.rows@)
    }
}

impl Visits {
    #[verifier::type_invariant]
    spec fn well_formed(&self) -> bool {
        keys_distinct(self.rows@)
    }

    /// An empty table.
    pub fn new() -> (visits: Visits)
        ensures
            visits@ == Map::<(Uid, Day), Stored>::empty(),
    {
        let visits = Visits { rows: Vec::new() };
        assert(visits@ =~= Map::<(Uid, Day), Stored>::empty());
        visits
    }

    /// Where the row of `person` on `day` stands, if there is one.
    fn position(&self, person: Uid, day: Day) -> (found: Option<usize>)
        ensures
            match found {
                Some(i) => i < self.rows.len() && self.rows[i as int]@.key() == (person, day),
                None => !self@.contains_key((person, day)),
            },
    {
        let mut i: usize = 0;
        while i < self.rows.len()
            invariant
                i <= self.rows.len(),
                forall|j: int| 0 <= j < i ==> #[trigger] self.rows[j]@.key() != (person, day),
            decreases self.rows.len() - i,
        {
            if self.rows[i].person == person && self.rows[i].day == day {
                return Some(i);
            }
            i += 1;
        }
        None
    }

    /// The records whose day lies between `from` and `to`, both included:
    /// each of them once, and nothing else.
    pub fn get_visits(&self, from: Day, to: Day) -> (found: Vec<Visit>)
        ensures
            is_listing(found@, self@, from, to),
    {
        proof {
            use_type_invariant(self);
        }
        let mut found: Vec<Visit> = Vec::new();
        let ghost mut origin: Seq<int> = Seq::empty();
        let mut i: usize = 0;
        while i < self.rows.len()
            invariant
                i <= self.rows.len(),
                keys_distinct(self.rows@),
                origin.len() == found.len(),
                forall|n: int|
                    0 <= n < found.len() ==> 0 <= #[trigger] origin[n] < i && found[n]@
                        == self.rows[origin[n]]@ && in_range(found[n].day, from, to),
                forall|n: int, m: int| 0 <= n < m < found.len() ==> origin[n] < origin[m],
                forall|j: int|
                    0 <= j < i && in_range(#[trigger] self.rows[j].day, from, to) ==> exists|n: int|
                        0 <= n < found.len() && #[trigger] origin[n] == j,
            decreases self.rows.len() - i,
        {
            let row = &self.rows[i];
            if from.0 <= row.day.0 && row.day.0 <= to.0 {
                found.push(row.duplicate());
                proof {
                    let ghost before = origin;
                    origin = origin.push(i as int);
                    assert forall|j: int|
                        0 <= j < i + 1 && in_range(#[trigger] self.rows[j].day, from, to) implies exists|
                        n: int,
                    | 0 <= n < found.len() && #[trigger] origin[n] == j by {
                        if j < i {
                            let n = choose|n: int| 0 <= n < before.len() && #[trigger] before[n] == j;
                            assert(origin[n] == j);
                        } else {
                            assert(origin[found.len() - 1] == j);
                        }
                    }
                }
            }
            i += 1;
        }
        proof {
            assert forall|n: int| 0 <= n < found.len() implies {
                &&& self@.contains_key(#[trigger] found[n]@.key())
                &&& self@[found[n]@.key()] == found[n]@.stored()
                &&& in_range(found[n].day, from, to)
            } by {
                lemma_table_of_row(self.rows@, origin[n]);
            }
            assert forall|k: (Uid, Day)| #[trigger]
                self@.contains_key(k) && in_range(k.1, from, to) implies exists|n: int|
                0 <= n < found.len() && #[trigger] found[n]@.key() == k by {
                let j = choose|j: int| 0 <= j < self.rows.len() && #[trigger] self.rows[j]@.key() == k;
                assert(in_range(self.rows[j].day, from, to));
                let n = choose|n: int| 0 <= n < found.len() && #[trigger] origin[n] == j;
                assert(found[n]@.key() == k);
            }
            assert forall|n: int, m: int| 0 <= n < m < found.len() implies #[trigger] found[n]@.key()
                != #[trigger] found[m]@.key() by {
                assert(origin[n] < origin[m]);
                assert(self.rows[origin[n]]@.key() != self.rows[origin[m]]@.key());
            }
        }
        found
    }

    /// Writes one person's visit on one day. A missing record is made, with
    /// the update's purpose or the empty one; an existing record takes the
    /// update's status, and the update's purpose where it names one. Says
    /// whether the update is worth announcing: the record is new, or its
    /// status is another than before.
    pub fn upsert_visit(&mut self, visit_update: &VisitUpdate) -> (changed: bool)
        ensures
            final(self)@ == upserted(old(self)@, visit_update@),
            changed == upsert_changes(lookup(old(self)@, visit_update@.key()), visit_update@),
    {
        proof {
            use_type_invariant(&*self);
        }
        let ghost before = self.rows@;
        let ghost key = visit_update@.key();
        match self.position(visit_update.person, visit_update.day) {
            Some(i) => {
                proof {
                    lemma_table_of_row(before, i as int);
                }
                let plan = plan_upsert(
                    Some((&self.rows[i].purpose, self.rows[i].status)),
                    visit_update,
                );
                match plan.action {
                    UpsertAction::Update { purpose, status } => {
                        let row = Visit {
                            person: visit_update.person,
                            day: visit_update.day,
                            purpose,
                            status,
                        };
                        let mut rows: Vec<Visit> = Vec::new();
                        core::mem::swap(&mut self.rows, &mut rows);
                        rows[i] = row;
                        proof {
                            let after = rows@;
                            assert forall|a: int, b: int| 0 <= a < b < after.len() implies #[trigger]
                                after[a]@.key() != #[trigger] after[b]@.key() by {
                                assert(before[a]@.key() != before[b]@.key());
                            }
                            let goal = upserted(table_of(before), visit_update@);
                            assert forall|n: int| 0 <= n < after.len() implies goal.contains_key(
                                #[trigger] after[n]@.key(),
                            ) && goal[after[n]@.key()] == after[n]@.stored() by {
                                lemma_table_of_row(before, n);
                                if n != i {
                                    if n < i {
                                        assert(before[n]@.key() != before[i as int]@.key());
                                    } else {
                                        assert(before[i as int]@.key() != before[n]@.key());
                                    }
                                }
                            }
                            assert forall|k: (Uid, Day)| #[trigger] goal.contains_key(k) implies exists|
                                n: int,
                            | 0 <= n < after.len() && #[trigger] after[n]@.key() == k by {
                                if k == key {
                                    assert(after[i as int]@.key() == k);
                                } else {
                                    let n = choose|n: int|
                                        0 <= n < before.len() && #[trigger] before[n]@.key() == k;
                                    assert(after[n]@.key() == k);
                                }
                            }
                            lemma_rows_stand_for(after, goal);
                        }
                        core::mem::swap(&mut self.rows, &mut rows);
                    },
                    UpsertAction::Keep => {
                        assert(upserted(table_of(before), visit_update@) =~= table_of(before));
                    },
                    UpsertAction::Insert { purpose, status } => {
                        assert(false);
                    },
                }
                plan.changed
            },
            None => {
                let plan = plan_upsert(None, visit_update);
                match plan.action {
                    UpsertAction::Insert { purpose, status } => {
                        let row = Visit {
                            person: visit_update.person,
                            day: visit_update.day,
                            purpose,
                            status,
                        };
                        let mut rows: Vec<Visit> = Vec::new();
                        core::mem::swap(&mut self.rows, &mut rows);
                        rows.push(row);
                        proof {
                            let after = rows@;
                            assert forall|a: int, b: int| 0 <= a < b < after.len() implies #[trigger]
                                after[a]@.key() != #[trigger] after[b]@.key() by {
                                if b < before.len() {
                                    assert(before[a]@.key() != before[b]@.key());
                                } else {
                                    assert(before[a]@.key() == after[a]@.key());
                                    assert(!table_of(before).contains_key(key));
                                }
                            }
                            let goal = upserted(table_of(before), visit_update@);
                            assert forall|n: int| 0 <= n < after.len() implies goal.contains_key(
                                #[trigger] after[n]@.key(),
                            ) && goal[after[n]@.key()] == after[n]@.stored() by {
                                if n < before.len() {
                                    lemma_table_of_row(before, n);
                                    assert(before[n]@.key() == after[n]@.key());
                                }
                            }
                            assert forall|k: (Uid, Day)| #[trigger] goal.contains_key(k) implies exists|
                                n: int,
                            | 0 <= n < after.len() && #[trigger] after[n]@.key() == k by {
                                if k == key {
                                    assert(after[after.len() - 1]@.key() == k);
                                } else {
                                    let n = choose|n: int|
                                        0 <= n < before.len() && #[trigger] before[n]@.key() == k;
                                    assert(after[n]@.key() == k);
                                }
                            }
                            lemma_rows_stand_for(after, goal);
                        }
                        core::mem::swap(&mut self.rows, &mut rows);
                    },
                    _ => {
                        assert(false);
                    },
                }
                plan.changed
            },
        }
    }

    /// Removes the record of `person` on `day` if there is one, and says
    /// whether there was.
    pub fn delete_visit(&mut self, person: Uid, day: Day) -> (deleted: bool)
        ensures
            final(self)@ == without(old(self)@, person, day),
            deleted == old(self)@.contains_key((person, day)),
    {
        proof {
            use_type_invariant(&*self);
        }
        let ghost before = self.rows@;
        match self.position(person, day) {
            Some(i) => {
                proof {
                    lemma_table_of_row(before, i as int);
                }
                let mut rows: Vec<Visit> = Vec::new();
                core::mem::swap(&mut self.rows, &mut rows);
                rows.remove(i);
                proof {
                    let after = rows@;
                    assert forall|a: int, b: int| 0 <= a < b < after.len() implies #[trigger]
                        after[a]@.key() != #[trigger] after[b]@.key() by {
                        let a0 = if a < i { a } else { a + 1 };
                        let b0 = if b < i { b } else { b + 1 };
                        assert(before[a0]@.key() != before[b0]@.key());
                    }
                    let goal = without(table_of(before), person, day);
                    assert forall|n: int| 0 <= n < after.len() implies goal.contains_key(
                        #[trigger] after[n]@.key(),
                    ) && goal[after[n]@.key()] == after[n]@.stored() by {
                        let n0 = if n < i { n } else { n + 1 };
                        lemma_table_of_row(before, n0);
                        if n0 < i {
                            assert(before[n0]@.key() != before[i as int]@.key());
                        } else {
                            assert(before[i as int]@.key() != before[n0]@.key());
                        }
                    }
                    assert forall|k: (Uid, Day)| #[trigger] goal.contains_key(k) implies exists|n: int|
                        0 <= n < after.len() && #[trigger] after[n]@.key() == k by {
                        let n0 = choose|n: int|
                            0 <= n < before.len() && #[trigger] before[n]@.key() == k;
                        let n = if n0 < i { n0 } else { n0 - 1 };
                        assert(after[n]@.key() == k);
                    }
                    lemma_rows_stand_for(after, goal);
                }
                core::mem::swap(&mut self.rows, &mut rows);
                true
            },
            None => {
                assert(without(table_of(before), person, day) =~= table_of(before));
                false
            },
        }
    }

    /// Sets the status of every record on `day` to `CheckedOut`, whatever
    /// it was; purposes and the records of other days stay as they are.
    pub fn check_out_everybody(&mut self, day: Day)
        ensures
            final(self)@ == all_checked_out(old(self)@, day),
    {
        proof {
            use_type_invariant(&*self);
        }
        let ghost before = self.rows@;
        let mut next: Vec<Visit> = Vec::new();
        let mut i: usize = 0;
        while i < self.rows.len()
            invariant
                i <= self.rows.len(),
                self.rows@ == before,
                next.len() == i,
                forall|n: int|
                    0 <= n < i ==> (#[trigger] next[n])@ == (VisitView {
                        status: if before[n].day == day {
                            VisitStatus::CheckedOut
                        } else {
                            before[n].status
                        },
                        ..before[n]@
                    }),
            decreases self.rows.len() - i,
        {
            let row = &self.rows[i];
            let status = if row.day == day {
                VisitStatus::CheckedOut
            } else {
                row.status
            };
            next.push(Visit { person: row.person, day: row.day, purpose: row.purpose.clone(), status });
            i += 1;
        }
        proof {
            let after = next@;
            assert forall|a: int, b: int| 0 <= a < b < after.len() implies #[trigger] after[a]@.key()
                != #[trigger] after[b]@.key() by {
                assert(before[a]@.key() != before[b]@.key());
            }
            let goal = all_checked_out(table_of(before), day);
            assert forall|n: int| 0 <= n < after.len() implies goal.contains_key(
                #[trigger] after[n]@.key(),
            ) && goal[after[n]@.key()] == after[n]@.stored() by {
                lemma_table_of_row(before, n);
                assert(after[n]@.key() == before[n]@.key());
            }
            assert forall|k: (Uid, Day)| #[trigger] goal.contains_key(k) implies exists|n: int|
                0 <= n < after.len() && #[trigger] after[n]@.key() == k by {
                let n = choose|n: int| 0 <= n < before.len() && #[trigger] before[n]@.key() == k;
                assert(after[n]@.key() == k);
            }
            lemma_rows_stand_for(after, goal);
        }
        self.rows = next;
    }

    /// The retention sweep as of the day `now`: deletes every record whose
    /// day lies more than `VISIT_HISTORY_DAYS` days before `now`, and no
    /// other. A record exactly that many days old is kept.
    pub fn cleanup(&mut self, now: Day)
        ensures
            final(self)@ == swept(old(self)@, now),
    {
        proof {
            use_type_invariant(&*self);
        }
        let ghost before = self.rows@;
        let cutoff = cleanup_cutoff(now);
        let mut next: Vec<Visit> = Vec::new();
        let ghost mut origin: Seq<int> = Seq::empty();
        let mut i: usize = 0;
        while i < self.rows.len()
            invariant
                i <= self.rows.len(),
                self.rows@ == before,
                cutoff == retention_cutoff(now),
                origin.len() == next.len(),
                forall|n: int|
                    0 <= n < next.len() ==> 0 <= #[trigger] origin[n] < i && next[n]@
                        == before[origin[n]]@ && before[origin[n]].day.0 >= cutoff,
                forall|n: int, m: int| 0 <= n < m < next.len() ==> origin[n] < origin[m],
                forall|j: int|
                    0 <= j < i && (#[trigger] before[j]).day.0 >= cutoff ==> exists|n: int|
                        0 <= n < next.len() && #[trigger] origin[n] == j,
            decreases self.rows.len() - i,
        {
            let row = &self.rows[i];
            if row.day.0 as i64 >= cutoff {
                next.push(row.duplicate());
                proof {
                    let ghost earlier = origin;
                    origin = origin.push(i as int);
                    assert forall|j: int|
                        0 <= j < i + 1 && (#[trigger] before[j]).day.0 >= cutoff implies exists|n: int|
                        0 <= n < next.len() && #[trigger] origin[n] == j by {
                        if j < i {
                            let n = choose|n: int|
                                0 <= n < earlier.len() && #[trigger] earlier[n] == j;
                            assert(origin[n] == j);
                        } else {
                            assert(origin[next.len() - 1] == j);
                        }
                    }
                }
            }
            i += 1;
        }
        proof {
            let after = next@;
            assert forall|a: int, b: int| 0 <= a < b < after.len() implies #[trigger] after[a]@.key()
                != #[trigger] after[b]@.key() by {
                assert(origin[a] < origin[b]);
                assert(before[origin[a]]@.key() != before[origin[b]]@.key());
            }
            let goal = swept(table_of(before), now);
            assert forall|n: int| 0 <= n < after.len() implies goal.contains_key(
                #[trigger] after[n]@.key(),
            ) && goal[after[n]@.key()] == after[n]@.stored() by {
                lemma_table_of_row(before, origin[n]);
            }
            assert forall|k: (Uid, Day)| #[trigger] goal.contains_key(k) implies exists|n: int|
                0 <= n < after.len() && #[trigger] after[n]@.key() == k by {
                let j = choose|j: int| 0 <= j < before.len() && #[trigger] before[j]@.key() == k;
                assert(before[j].day.0 >= cutoff);
                let n = choose|n: int| 0 <= n < next.len() && #[trigger] origin[n] == j;
                assert(after[n]@.key() == k);
            }
            lemma_rows_stand_for(after, goal);
        }
        self.rows = next;
    }
}

} // verus!
