//! The laws of the store, proved of the statements' outcomes as the model
//! of the database gives them.

use crate::command::{spec_response, CommandView, ResponseView};
use crate::error::StoreErrorView;
use crate::model::{
    key_rows, last_write, opened, puts, record_rows, replay, value_rows, Database, Table,
};
use crate::open::{spec_step, OpenStepView, OpeningView, Phase};
use crate::outcome::{all_of_width, as_records, first_column, OutcomeView, RecordView};
use crate::store::{create_table_statement, find_table_statement};
use vstd::prelude::*;

verus! {

/// The key of each record of `listing`, in order.
pub open spec fn keys_of(listing: Seq<RecordView>) -> Seq<Seq<char>> {
    Seq::new(listing.len(), |i: int| listing[i].key)
}

/// The value of each record of `listing`, in order.
pub open spec fn values_of(listing: Seq<RecordView>) -> Seq<Seq<char>> {
    Seq::new(listing.len(), |i: int| listing[i].value)
}

/// The commands that put each record of `pairs`, in order.
pub open spec fn puts_of(pairs: Seq<RecordView>) -> Seq<CommandView> {
    Seq::new(pairs.len(), |i: int| CommandView::Put { key: pairs[i].key, value: pairs[i].value })
}

/// After any history of commands the table holds, under each key, what the
/// last write of that key left: the value of the last `Put`, and nothing
/// where a `Delete` came last or the key was never put.
pub proof fn law_table_holds_last_writes(history: Seq<CommandView>, key: Seq<char>)
    ensures
        replay(history).has(key) <==> last_write(history, key) is Some,
        replay(history).has(key) ==> replay(history).rows[key] == last_write(history, key)->0,
    decreases history.len(),
{
    if history.len() > 0 {
        law_table_holds_last_writes(history.drop_last(), key);
    }
}

/// A key that no command has put is absent: `Get` fails with `NotFound`, and
/// `Contains` answers `false`.
pub proof fn law_unset_key_is_absent(
    history: Seq<CommandView>,
    key: Seq<char>,
    outcome: OutcomeView,
)
    requires
        forall|i: int| 0 <= i < history.len() ==> !puts(#[trigger] history[i], key),
    ensures
        !replay(history).has(key),
        replay(history).answers(CommandView::Get { key }, outcome) ==> spec_response(
            CommandView::Get { key },
            outcome,
        ) == Err::<ResponseView, StoreErrorView>(StoreErrorView::NotFound),
        replay(history).answers(CommandView::Contains { key }, outcome) ==> spec_response(
            CommandView::Contains { key },
            outcome,
        ) == Ok::<ResponseView, StoreErrorView>(ResponseView::Found(false)),
    decreases history.len(),
{
    if history.len() > 0 {
        let earlier = history.drop_last();
        assert forall|i: int| 0 <= i < earlier.len() implies !puts(#[trigger] earlier[i], key) by {
            assert(earlier[i] == history[i]);
        }
        law_unset_key_is_absent(earlier, key, outcome);
        assert(!puts(history[history.len() - 1], key));
    }
}

/// After `Put` of a key and a value, `Get` of the key gives the value and
/// `Contains` answers `true`.
pub proof fn law_get_after_put(
    table: Table,
    key: Seq<char>,
    value: Seq<char>,
    outcome: OutcomeView,
)
    ensures
        table.after(CommandView::Put { key, value }).answers(CommandView::Get { key }, outcome)
            ==> spec_response(CommandView::Get { key }, outcome) == Ok::<
            ResponseView,
            StoreErrorView,
        >(ResponseView::Value(value)),
        table.after(CommandView::Put { key, value }).answers(
            CommandView::Contains { key },
            outcome,
        ) ==> spec_response(CommandView::Contains { key }, outcome) == Ok::<
            ResponseView,
            StoreErrorView,
        >(ResponseView::Found(true)),
{
}

/// A `Put` replaces what an earlier `Put` of the same key wrote: the table
/// is the one that the later `Put` alone leaves, and `Get` gives the later
/// value.
pub proof fn law_last_put_wins(
    table: Table,
    key: Seq<char>,
    first: Seq<char>,
    second: Seq<char>,
    outcome: OutcomeView,
)
    ensures
        table.after(CommandView::Put { key, value: first }).after(
            CommandView::Put { key, value: second },
        ) == table.after(CommandView::Put { key, value: second }),
        table.after(CommandView::Put { key, value: first }).after(
            CommandView::Put { key, value: second },
        ).answers(CommandView::Get { key }, outcome) ==> spec_response(
            CommandView::Get { key },
            outcome,
        ) == Ok::<ResponseView, StoreErrorView>(ResponseView::Value(second)),
{
    let once = table.after(CommandView::Put { key, value: second });
    let twice = table.after(CommandView::Put { key, value: first }).after(
        CommandView::Put { key, value: second },
    );
    assert(twice.rows =~= once.rows);
}

/// After `Delete` of a key, `Contains` answers `false`; a second `Delete` of
/// the key succeeds and changes nothing.
pub proof fn law_delete_removes(table: Table, key: Seq<char>, outcome: OutcomeView)
    ensures
        !table.after(CommandView::Delete { key }).has(key),
        table.after(CommandView::Delete { key }).answers(CommandView::Contains { key }, outcome)
            ==> spec_response(CommandView::Contains { key }, outcome) == Ok::<
            ResponseView,
            StoreErrorView,
        >(ResponseView::Found(false)),
        table.after(CommandView::Delete { key }).answers(CommandView::Delete { key }, outcome)
            ==> spec_response(CommandView::Delete { key }, outcome) == Ok::<
            ResponseView,
            StoreErrorView,
        >(ResponseView::Done),
        table.after(CommandView::Delete { key }).after(CommandView::Delete { key }) == table.after(
            CommandView::Delete { key },
        ),
{
    let once = table.after(CommandView::Delete { key });
    assert(once.after(CommandView::Delete { key }).rows =~= once.rows);
}

/// `Keys`, `Values` and `Records` give the rows of the table, each row once,
/// in the order in which the database listed them: the keys, the values and
/// the records of one listing of the table.
pub proof fn law_lists_hold_the_table(table: Table, outcome: OutcomeView)
    ensures
        table.answers(CommandView::Keys, outcome) ==> exists|listing: Seq<RecordView>|
            table.listed_by(listing) && spec_response(CommandView::Keys, outcome) == Ok::<
                ResponseView,
                StoreErrorView,
            >(ResponseView::Keys(#[trigger] keys_of(listing))),
        table.answers(CommandView::Values, outcome) ==> exists|listing: Seq<RecordView>|
            table.listed_by(listing) && spec_response(CommandView::Values, outcome) == Ok::<
                ResponseView,
                StoreErrorView,
            >(ResponseView::Values(#[trigger] values_of(listing))),
        table.answers(CommandView::Records, outcome) ==> exists|listing: Seq<RecordView>|
            #[trigger] table.listed_by(listing) && spec_response(CommandView::Records, outcome)
                == Ok::<ResponseView, StoreErrorView>(ResponseView::Records(listing)),
{
    if table.answers(CommandView::Keys, outcome) {
        let listing = choose|listing: Seq<RecordView>|
            table.listed_by(listing) && outcome == OutcomeView::All(#[trigger] key_rows(listing));
        let rows = key_rows(listing);
        assert(all_of_width(rows, 1));
        assert(first_column(rows) =~= keys_of(listing));
    }
    if table.answers(CommandView::Values, outcome) {
        let listing = choose|listing: Seq<RecordView>|
            table.listed_by(listing) && outcome == OutcomeView::All(
                #[trigger] value_rows(listing),
            );
        let rows = value_rows(listing);
        assert(all_of_width(rows, 1));
        assert(first_column(rows) =~= values_of(listing));
    }
    if table.answers(CommandView::Records, outcome) {
        let listing = choose|listing: Seq<RecordView>|
            table.listed_by(listing) && outcome == OutcomeView::All(
                #[trigger] record_rows(listing),
            );
        let rows = record_rows(listing);
        assert(all_of_width(rows, 2));
        assert(as_records(rows) =~= listing);
    }
}

/// A listing of a table holds, as a set, exactly the rows of the table, and
/// its keys are exactly the keys of the table; neither holds anything twice.
pub proof fn law_listing_is_the_table(table: Table, listing: Seq<RecordView>)
    requires
        table.listed_by(listing),
    ensures
        listing.no_duplicates(),
        listing.to_set() == Set::new(|r: RecordView| table.rows.contains_pair(r.key, r.value)),
        keys_of(listing).no_duplicates(),
        keys_of(listing).to_set() == table.rows.dom(),
{
    let keys = keys_of(listing);
    let pairs = Set::new(|r: RecordView| table.rows.contains_pair(r.key, r.value));
    assert forall|r: RecordView| pairs.contains(r) implies listing.to_set().contains(r) by {
        assert(table.rows.contains_key(r.key));
        let i = choose|i: int| 0 <= i < listing.len() && (#[trigger] listing[i]).key == r.key;
        assert(listing[i] == r);
    }
    assert(listing.to_set() =~= pairs);
    assert forall|key: Seq<char>| table.rows.dom().contains(key) implies keys.to_set().contains(
        key,
    ) by {
        assert(table.rows.contains_key(key));
        let i = choose|i: int| 0 <= i < listing.len() && (#[trigger] listing[i]).key == key;
        assert(keys[i] == key);
    }
    assert forall|key: Seq<char>| keys.to_set().contains(key) implies table.rows.dom().contains(
        key,
    ) by {
        let i = choose|i: int| 0 <= i < keys.len() && keys[i] == key;
        assert(table.rows.contains_pair(listing[i].key, listing[i].value));
    }
    assert(keys.to_set() =~= table.rows.dom());
}

/// After any history of commands, `Records` gives exactly the records that
/// were put and not deleted since, each with the value that was put last,
/// and `Keys` gives exactly their keys; neither gives anything twice.
pub proof fn law_lists_after_history(history: Seq<CommandView>, outcome: OutcomeView)
    ensures
        replay(history).answers(CommandView::Records, outcome) ==> (spec_response(
            CommandView::Records,
            outcome,
        ) matches Ok(ResponseView::Records(records)) && records.no_duplicates() && forall|
            r: RecordView,
        |
            records.contains(r) <==> last_write(history, r.key) == Some(r.value)),
        replay(history).answers(CommandView::Keys, outcome) ==> (spec_response(
            CommandView::Keys,
            outcome,
        ) matches Ok(ResponseView::Keys(keys)) && keys.no_duplicates() && forall|key: Seq<char>|
            keys.contains(key) <==> last_write(history, key) is Some),
{
    let table = replay(history);
    law_lists_hold_the_table(table, outcome);
    if table.answers(CommandView::Records, outcome) {
        let records = choose|listing: Seq<RecordView>| #[trigger]
            table.listed_by(listing) && spec_response(CommandView::Records, outcome) == Ok::<
                ResponseView,
                StoreErrorView,
            >(ResponseView::Records(listing));
        law_listing_is_the_table(table, records);
        assert forall|r: RecordView|
            records.contains(r) <==> last_write(history, r.key) == Some(r.value) by {
            law_table_holds_last_writes(history, r.key);
            assert(records.contains(r) <==> records.to_set().contains(r));
        }
    }
    if table.answers(CommandView::Keys, outcome) {
        let listing = choose|listing: Seq<RecordView>|
            table.listed_by(listing) && spec_response(CommandView::Keys, outcome) == Ok::<
                ResponseView,
                StoreErrorView,
            >(ResponseView::Keys(#[trigger] keys_of(listing)));
        law_listing_is_the_table(table, listing);
        let keys = keys_of(listing);
        assert forall|key: Seq<char>| keys.contains(key) <==> last_write(history, key) is Some by {
            law_table_holds_last_writes(history, key);
            assert(keys.contains(key) <==> keys.to_set().contains(key));
        }
    }
}

/// Putting records whose keys differ from one another, and then reading
/// `Records`, gives back those records and no others, each once.
pub proof fn law_round_trip(pairs: Seq<RecordView>, outcome: OutcomeView)
    requires
        forall|i: int, j: int|
            0 <= i < j < pairs.len() ==> (#[trigger] pairs[i]).key != (#[trigger] pairs[j]).key,
        replay(puts_of(pairs)).answers(CommandView::Records, outcome),
    ensures
        spec_response(CommandView::Records, outcome) matches Ok(ResponseView::Records(records))
            && records.len() == pairs.len() && records.no_duplicates() && records.to_set()
            == pairs.to_set(),
{
    let table = replay(puts_of(pairs));
    law_lists_hold_the_table(table, outcome);
    let records = choose|listing: Seq<RecordView>| #[trigger]
        table.listed_by(listing) && spec_response(CommandView::Records, outcome) == Ok::<
            ResponseView,
            StoreErrorView,
        >(ResponseView::Records(listing));
    law_listing_is_the_table(table, records);
    lemma_table_of_puts(pairs);
    assert(pairs.no_duplicates());
    assert forall|r: RecordView| pairs.to_set().contains(r) implies records.to_set().contains(
        r,
    ) by {
        let i = choose|i: int| 0 <= i < pairs.len() && pairs[i] == r;
        assert(table.rows.contains_pair(pairs[i].key, pairs[i].value));
    }
    assert(records.to_set() =~= pairs.to_set());
    records.unique_seq_to_set();
    pairs.unique_seq_to_set();
}

/// The table that putting `pairs` leaves holds a row if and only if `pairs`
/// holds it, where the keys of `pairs` differ from one another.
proof fn lemma_table_of_puts(pairs: Seq<RecordView>)
    requires
        forall|i: int, j: int|
            0 <= i < j < pairs.len() ==> (#[trigger] pairs[i]).key != (#[trigger] pairs[j]).key,
    ensures
        forall|i: int|
            0 <= i < pairs.len() ==> replay(puts_of(pairs)).rows.contains_pair(
                (#[trigger] pairs[i]).key,
                pairs[i].value,
            ),
        forall|key: Seq<char>, value: Seq<char>| #[trigger]
            replay(puts_of(pairs)).rows.contains_pair(key, value) ==> exists|i: int|
                0 <= i < pairs.len() && #[trigger] pairs[i] == (RecordView { key, value }),
    decreases pairs.len(),
{
    if pairs.len() > 0 {
        let earlier = pairs.drop_last();
        let last = pairs.last();
        assert(puts_of(pairs).drop_last() =~= puts_of(earlier));
        assert(puts_of(pairs).last() == CommandView::Put { key: last.key, value: last.value });
        lemma_table_of_puts(earlier);
        let before = replay(puts_of(earlier));
        let table = replay(puts_of(pairs));
        assert(table.rows == before.rows.insert(last.key, last.value));
        assert forall|i: int| 0 <= i < pairs.len() implies table.rows.contains_pair(
            (#[trigger] pairs[i]).key,
            pairs[i].value,
        ) by {
            if i < pairs.len() - 1 {
                assert(earlier[i] == pairs[i]);
                assert(pairs[i].key != pairs[pairs.len() - 1].key);
            }
        }
        assert forall|key: Seq<char>, value: Seq<char>| #[trigger]
            table.rows.contains_pair(key, value) implies exists|i: int|
            0 <= i < pairs.len() && #[trigger] pairs[i] == (RecordView { key, value }) by {
            if key == last.key {
                assert(pairs[pairs.len() - 1] == (RecordView { key, value }));
            } else {
                assert(before.rows.contains_pair(key, value));
                let i = choose|i: int|
                    0 <= i < earlier.len() && #[trigger] earlier[i] == (RecordView { key, value });
                assert(pairs[i] == earlier[i]);
            }
        }
    }
}

/// Opening a store ends with the store ready and its table in the database.
/// A table that was there is not touched: where it was missing it is created
/// without rows, and no other table changes. Opening the same store once
/// more is answered in the same way and changes nothing.
pub proof fn law_open_twice(db: Database, opening: OpeningView)
    requires
        opening.phase == Phase::Connecting,
    ensures
        opened(db, opening).1 == OpenStepView::Ready(opening.table),
        opened(db, opening).0.tables.contains_key(opening.table),
        db.tables.contains_key(opening.table) ==> opened(db, opening).0 == db,
        !db.tables.contains_key(opening.table) ==> opened(db, opening).0 == db.after_create(
            opening.table,
        ),
        opened(opened(db, opening).0, opening) == opened(db, opening),
        spec_step(opening, OutcomeView::Done) matches OpenStepView::Run(finding, statement)
            && statement == find_table_statement(opening.table) && (spec_step(
            finding,
            OutcomeView::First(None),
        ) matches OpenStepView::Run(_, statement) && statement == create_table_statement(
            opening.table,
        )),
{
}

} // verus!
