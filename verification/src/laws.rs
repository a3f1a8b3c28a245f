use vstd::prelude::*;

use crate::backend::Uid;
use crate::day::Day;
use crate::visits::{
    all_checked_out, carried_out, in_range, is_listing, is_upsert_plan, lookup, shows, swept,
    upsert_changes, upsert_writes, upserted, without, Stored, Table, Visit, VisitStatus,
    UpsertPlan, VisitUpdateView, VISIT_HISTORY_DAYS,
};

verus! {

/// An update that names no purpose is announced at most once: whatever the
/// table held, a second application of the same update changes nothing in
/// the table and is not worth announcing. The first application is worth
/// announcing where it made the record.
pub proof fn law_upsert_settles(table: Table, update: VisitUpdateView)
    requires
        update.purpose.is_none(),
    ensures
        !table.contains_key(update.key()) ==> upsert_changes(lookup(table, update.key()), update),
        !upsert_changes(lookup(upserted(table, update), update.key()), update),
        !upsert_writes(lookup(upserted(table, update), update.key()), update),
        upserted(upserted(table, update), update) == upserted(table, update),
{
    let once = upserted(table, update);
    assert(upserted(once, update) =~= once);
}

/// Whoever reads what the table holds under an update's key, lets the
/// library decide, and carries the decision out, has applied the update:
/// the table is then the one after the update, and the decision says
/// whether the update is worth announcing.
pub proof fn law_plan_carries_out_upsert(table: Table, update: VisitUpdateView, plan: UpsertPlan)
    requires
        is_upsert_plan(plan, lookup(table, update.key()), update),
    ensures
        carried_out(table, update.key(), plan.action) == upserted(table, update),
        plan.changed == upsert_changes(lookup(table, update.key()), update),
{
    assert(carried_out(table, update.key(), plan.action) =~= upserted(table, update));
}

/// Over an existing record, an update is worth announcing exactly where
/// its status is another than the one recorded. An update that only names
/// a purpose is not announced, and yet its purpose is what the table holds
/// afterwards. In either case the record ends with the update's status.
pub proof fn law_status_change_detection(table: Table, update: VisitUpdateView)
    requires
        table.contains_key(update.key()),
    ensures
        upsert_changes(lookup(table, update.key()), update) <==> table[update.key()].status
            != update.status,
        upserted(table, update)[update.key()].status == update.status,
        update.purpose matches Some(p) ==> upserted(table, update)[update.key()].purpose == p,
        update.purpose.is_none() ==> upserted(table, update)[update.key()].purpose
            == table[update.key()].purpose,
{
}

/// An update touches the record under its own key and no other: the keys
/// afterwards are the old ones and the update's, and every other record
/// is as it was. A record that the update makes has the update's purpose,
/// or the empty one.
pub proof fn law_upsert_is_local(table: Table, update: VisitUpdateView, other: (Uid, Day))
    requires
        other != update.key(),
    ensures
        upserted(table, update).contains_key(update.key()),
        upserted(table, update).contains_key(other) == table.contains_key(other),
        table.contains_key(other) ==> upserted(table, update)[other] == table[other],
        !table.contains_key(update.key()) ==> upserted(table, update)[update.key()] == (Stored {
            purpose: match update.purpose {
                Some(p) => p,
                None => Seq::empty(),
            },
            status: update.status,
        }),
{
}

/// A listing for a single day holds exactly the records of that day.
pub proof fn law_single_day_listing(rows: Seq<Visit>, table: Table, day: Day)
    requires
        is_listing(rows, table, day, day),
    ensures
        forall|i: int| 0 <= i < rows.len() ==> (#[trigger] rows[i]).day == day,
        forall|person: Uid| #[trigger]
            table.contains_key((person, day)) ==> exists|i: int|
                0 <= i < rows.len() && #[trigger] rows[i]@.key() == (person, day)
                    && rows[i]@.stored() == table[(person, day)],
{
    assert forall|i: int| 0 <= i < rows.len() implies (#[trigger] rows[i]).day == day by {
        assert(table.contains_key(rows[i]@.key()));
        assert(in_range(rows[i].day, day, day));
    }
    assert forall|person: Uid| #[trigger] table.contains_key((person, day)) implies exists|i: int|
        0 <= i < rows.len() && #[trigger] rows[i]@.key() == (person, day) && rows[i]@.stored()
            == table[(person, day)] by {
        let k = (person, day);
        assert(table.contains_key(k) && in_range(k.1, day, day));
        let i = choose|i: int| 0 <= i < rows.len() && #[trigger] rows[i]@.key() == k;
        assert(table.contains_key(rows[i]@.key()));
    }
}

/// A listing for a range is the union of the listings for its days: a
/// record is in the one exactly where it is in the listing of its own day,
/// and that day lies in the range.
pub proof fn law_range_is_union_of_days(
    rows: Seq<Visit>,
    day_rows: Seq<Visit>,
    table: Table,
    from: Day,
    to: Day,
    day: Day,
)
    requires
        is_listing(rows, table, from, to),
        is_listing(day_rows, table, day, day),
    ensures
        in_range(day, from, to) ==> forall|j: int|
            0 <= j < day_rows.len() ==> shows(rows, (#[trigger] day_rows[j])@),
        forall|i: int|
            0 <= i < rows.len() && (#[trigger] rows[i]).day == day ==> shows(day_rows, rows[i]@),
        !in_range(day, from, to) ==> forall|i: int|
            0 <= i < rows.len() ==> (#[trigger] rows[i]).day != day,
{
    if in_range(day, from, to) {
        assert forall|j: int| 0 <= j < day_rows.len() implies shows(
            rows,
            (#[trigger] day_rows[j])@,
        ) by {
            let k = day_rows[j]@.key();
            assert(table.contains_key(k));
            assert(in_range(day_rows[j].day, day, day));
            assert(table.contains_key(k) && in_range(k.1, from, to));
            let i = choose|i: int| 0 <= i < rows.len() && #[trigger] rows[i]@.key() == k;
            assert(table.contains_key(rows[i]@.key()));
            assert(rows[i]@.stored() == day_rows[j]@.stored());
            assert(rows[i]@ == day_rows[j]@);
        }
    }
    assert forall|i: int| 0 <= i < rows.len() && (#[trigger] rows[i]).day == day implies shows(
        day_rows,
        rows[i]@,
    ) by {
        let k = rows[i]@.key();
        assert(table.contains_key(k));
        assert(table.contains_key(k) && in_range(k.1, day, day));
        let j = choose|j: int| 0 <= j < day_rows.len() && #[trigger] day_rows[j]@.key() == k;
        assert(table.contains_key(day_rows[j]@.key()));
        assert(rows[i]@.stored() == day_rows[j]@.stored());
        assert(day_rows[j]@ == rows[i]@);
    }
    if !in_range(day, from, to) {
        assert forall|i: int| 0 <= i < rows.len() implies (#[trigger] rows[i]).day != day by {
            assert(table.contains_key(rows[i]@.key()));
            assert(in_range(rows[i].day, from, to));
        }
    }
}

/// A range in which the table has no record is listed as the empty list,
/// and only such a range is.
pub proof fn law_empty_range_listing(rows: Seq<Visit>, table: Table, from: Day, to: Day)
    requires
        is_listing(rows, table, from, to),
    ensures
        rows.len() == 0 <==> forall|k: (Uid, Day)| #[trigger]
            table.contains_key(k) ==> !in_range(k.1, from, to),
{
    if rows.len() == 0 {
        assert forall|k: (Uid, Day)| #[trigger] table.contains_key(k) implies !in_range(
            k.1,
            from,
            to,
        ) by {
            if in_range(k.1, from, to) {
                assert(table.contains_key(k) && in_range(k.1, from, to));
                let i = choose|i: int| 0 <= i < rows.len() && #[trigger] rows[i]@.key() == k;
            }
        }
    } else {
        assert(table.contains_key(rows[0]@.key()));
        assert(in_range(rows[0].day, from, to));
    }
}

/// Deleting what is not there changes nothing; deleting what is there
/// removes that record and no other, so that no listing shows it, and a
/// second deletion finds nothing.
pub proof fn law_delete_is_idempotent(table: Table, person: Uid, day: Day)
    ensures
        !table.contains_key((person, day)) ==> without(table, person, day) == table,
        !without(table, person, day).contains_key((person, day)),
        without(without(table, person, day), person, day) == without(table, person, day),
        forall|k: (Uid, Day)|
            k != (person, day) ==> (#[trigger] without(table, person, day).contains_key(k)
                == table.contains_key(k)) && (table.contains_key(k) ==> without(
                table,
                person,
                day,
            )[k] == table[k]),
{
    let after = without(table, person, day);
    if !table.contains_key((person, day)) {
        assert(after =~= table);
    }
    assert(without(after, person, day) =~= after);
}

/// After a deletion no listing holds a row for the deleted person and day.
pub proof fn law_deleted_is_not_listed(
    rows: Seq<Visit>,
    table: Table,
    person: Uid,
    day: Day,
    from: Day,
    to: Day,
)
    requires
        is_listing(rows, without(table, person, day), from, to),
    ensures
        forall|i: int| 0 <= i < rows.len() ==> (#[trigger] rows[i])@.key() != (person, day),
{
    assert forall|i: int| 0 <= i < rows.len() implies (#[trigger] rows[i])@.key() != (
        person,
        day,
    ) by {
        assert(without(table, person, day).contains_key(rows[i]@.key()));
    }
}

/// The retention sweep keeps a record exactly where its day lies at most
/// `VISIT_HISTORY_DAYS` days before `now`: the cutoff day itself is kept,
/// the day before it is deleted. What is kept is unchanged.
pub proof fn law_retention_boundary(table: Table, now: Day, key: (Uid, Day))
    requires
        table.contains_key(key),
    ensures
        swept(table, now).contains_key(key) <==> key.1.0 >= now.0 - VISIT_HISTORY_DAYS,
        VISIT_HISTORY_DAYS == 30,
        key.1.0 == now.0 - 29 ==> swept(table, now).contains_key(key),
        key.1.0 == now.0 - 30 ==> swept(table, now).contains_key(key),
        key.1.0 == now.0 - 31 ==> !swept(table, now).contains_key(key),
        swept(table, now).contains_key(key) ==> swept(table, now)[key] == table[key],
{
}

/// The sweep never adds a record, and a second sweep on the same day
/// finds nothing more to delete.
pub proof fn law_sweep_is_idempotent(table: Table, now: Day)
    ensures
        swept(table, now).dom().subset_of(table.dom()),
        swept(swept(table, now), now) == swept(table, now),
{
    assert(swept(swept(table, now), now) =~= swept(table, now));
}

/// After the bulk close-out the table has the same records as before;
/// those on the closed day have status `CheckedOut` and the purpose they
/// had, and all others are untouched.
pub proof fn law_bulk_close_out(table: Table, day: Day, key: (Uid, Day))
    ensures
        all_checked_out(table, day).contains_key(key) == table.contains_key(key),
        table.contains_key(key) && key.1 == day ==> all_checked_out(table, day)[key] == (Stored {
            purpose: table[key].purpose,
            status: VisitStatus::CheckedOut,
        }),
        table.contains_key(key) && key.1 != day ==> all_checked_out(table, day)[key] == table[key],
        all_checked_out(all_checked_out(table, day), day) == all_checked_out(table, day),
{
    assert(all_checked_out(all_checked_out(table, day), day) =~= all_checked_out(table, day));
}

/// Planning a visit for someone who has no record on that day and then
/// checking that person in without naming a purpose announces both steps
/// and leaves one record: checked in, with the purpose of the plan.
pub proof fn law_plan_then_check_in(table: Table, person: Uid, day: Day, purpose: Seq<char>)
    requires
        !table.contains_key((person, day)),
    ensures
        ({
            let plan = VisitUpdateView {
                person,
                day,
                purpose: Some(purpose),
                status: VisitStatus::Planned,
            };
            let arrive = VisitUpdateView {
                person,
                day,
                purpose: None,
                status: VisitStatus::CheckedIn,
            };
            let planned = upserted(table, plan);
            let arrived = upserted(planned, arrive);
            &&& upsert_changes(lookup(table, (person, day)), plan)
            &&& planned[(person, day)] == (Stored { purpose, status: VisitStatus::Planned })
            &&& upsert_changes(lookup(planned, (person, day)), arrive)
            &&& arrived[(person, day)] == (Stored { purpose, status: VisitStatus::CheckedIn })
        }),
{
}

} // verus!
