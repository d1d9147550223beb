use crate::column::RecordBatch;
use crate::decode::{decode_batch, decode_batches, decode_row, read_cell, read_list, read_scalar, batch_column};
use crate::encode::{array_of, column_of, column_values, encoded, items_of, scalar_of};
use crate::schema::{element_type, Field, FieldType};
use crate::value::{cell_ok, lookup, rows_conform, value_conforms, value_for, RecordV, TaggedValueV};
use vstd::prelude::*;

verus! {

/// Where the entry at `k` is the first with key `name`, lookup finds it.
pub proof fn lemma_lookup_first(rec: RecordV, name: Seq<char>, k: int)
    requires
        0 <= k < rec.len(),
        rec[k].0 == name,
        forall|m: int| 0 <= m < k ==> (#[trigger] rec[m]).0 != name,
    ensures
        lookup(rec, name) == Some(rec[k].1),
    decreases k,
{
    if k > 0 {
        assert(rec[0].0 != name);
        assert forall|m: int| 0 <= m < k - 1 implies (#[trigger] rec.drop_first()[m]).0 != name by {
            assert(rec.drop_first()[m] == rec[m + 1]);
        }
        lemma_lookup_first(rec.drop_first(), name, k - 1);
    }
}

/// Where no entry has key `name`, lookup finds nothing.
pub proof fn lemma_lookup_absent(rec: RecordV, name: Seq<char>)
    requires
        forall|m: int| 0 <= m < rec.len() ==> (#[trigger] rec[m]).0 != name,
    ensures
        lookup(rec, name) is None,
    decreases rec.len(),
{
    if rec.len() > 0 {
        assert(rec[0].0 != name);
        assert forall|m: int| 0 <= m < rec.len() - 1 implies (#[trigger] rec.drop_first()[m]).0 != name by {
            assert(rec.drop_first()[m] == rec[m + 1]);
        }
        lemma_lookup_absent(rec.drop_first(), name);
    }
}

/// The first index at or below `k` whose entry has the key of entry `k`.
pub proof fn first_with_key(rec: RecordV, name: Seq<char>, k: int) -> (k0: int)
    requires
        0 <= k < rec.len(),
        rec[k].0 == name,
    ensures
        0 <= k0 <= k,
        rec[k0].0 == name,
        forall|m: int| 0 <= m < k0 ==> (#[trigger] rec[m]).0 != name,
    decreases k,
{
    if exists|m: int| 0 <= m < k && (#[trigger] rec[m]).0 == name {
        let m = choose|m: int| 0 <= m < k && (#[trigger] rec[m]).0 == name;
        first_with_key(rec, name, m)
    } else {
        k
    }
}

/// A column built from conforming values reads back each value unchanged.
pub proof fn lemma_read_back(ft: FieldType, vals: Seq<TaggedValueV>, i: int)
    requires
        0 <= i < vals.len(),
        value_conforms(ft, vals[i]),
    ensures
        read_cell(ft, Some(column_of(ft, vals)), i) == vals[i],
{
    match ft {
        FieldType::List(c) => {
            let a = array_of(c.field_type, items_of(vals[i]));
            assert(read_list(a, c.field_type) =~= items_of(vals[i]));
        },
        FieldType::FixedSizeList(c, _) => {
            let a = array_of(c.field_type, items_of(vals[i]));
            assert(read_list(a, c.field_type) =~= items_of(vals[i]));
        },
        _ => {
            let a = array_of(element_type(ft), vals.map_values(|v: TaggedValueV| scalar_of(v)));
            assert(read_scalar(a, element_type(ft), i) == scalar_of(vals[i]));
        },
    }
}

pub proof fn lemma_single_batch(fields: Seq<Field>, batch: RecordBatch)
    ensures
        decode_batches(fields, seq![batch]) == decode_batch(fields, batch),
{
    let bs = seq![batch];
    assert(bs.drop_last() =~= Seq::<RecordBatch>::empty());
    assert(bs.last() == batch);
    assert(decode_batches(fields, bs.drop_last()) == Seq::<RecordV>::empty());
    assert(decode_batches(fields, bs) =~= decode_batch(fields, batch));
}

/// Round trip: decoding the columns that encoding conforming rows yields gives
/// back, for every row and every schema field, the value the row held under
/// that field's name; one decoded record per row.
pub proof fn lemma_round_trip(fields: Seq<Field>, rows: Seq<RecordV>, batch: RecordBatch)
    requires
        rows_conform(fields, rows),
        batch.num_rows == rows.len(),
        encoded(fields, rows, batch.columns@),
    ensures
        decode_batches(fields, seq![batch]).len() == rows.len(),
        forall|i: int, j: int|
            0 <= i < rows.len() && 0 <= j < fields.len() ==> lookup(
                #[trigger] decode_batches(fields, seq![batch])[i],
                (#[trigger] fields[j]).name@,
            ) == lookup(rows[i], fields[j].name@),
{
    lemma_single_batch(fields, batch);
    assert forall|i: int, j: int|
        0 <= i < rows.len() && 0 <= j < fields.len() implies lookup(
            #[trigger] decode_batches(fields, seq![batch])[i],
            (#[trigger] fields[j]).name@,
        ) == lookup(rows[i], fields[j].name@) by {
        let name = fields[j].name@;
        let rec = decode_row(fields, batch, i);
        assert(decode_batch(fields, batch)[i] == rec);
        let k = first_with_key(rec, name, j);
        lemma_lookup_first(rec, name, k);
        assert(fields[k].name@ == name);
        let vals = column_values(rows, name);
        assert(cell_ok(fields[k], rows[i]));
        assert(vals[i] == value_for(rows[i], name));
        assert(batch.columns@[k]@ == column_of(fields[k].field_type, vals));
        assert(batch_column(batch, k) == Some(column_of(fields[k].field_type, vals)));
        lemma_read_back(fields[k].field_type, vals, i);
    }
}

/// An empty sequence under a `List` field survives encoding and decoding as
/// an empty sequence, not as a missing field.
pub proof fn lemma_empty_list_kept(
    fields: Seq<Field>,
    rows: Seq<RecordV>,
    batch: RecordBatch,
    i: int,
    j: int,
)
    requires
        rows_conform(fields, rows),
        batch.num_rows == rows.len(),
        encoded(fields, rows, batch.columns@),
        0 <= i < rows.len(),
        0 <= j < fields.len(),
        fields[j].field_type is List,
        lookup(rows[i], fields[j].name@) == Some(TaggedValueV::List(Seq::empty())),
    ensures
        lookup(decode_batches(fields, seq![batch])[i], fields[j].name@) == Some(
            TaggedValueV::List(Seq::empty()),
        ),
{
    lemma_round_trip(fields, rows, batch);
}

/// No two entries of the record share a key.
pub open spec fn keys_unique(rec: RecordV) -> bool {
    forall|a: int, b: int| 0 <= a < rec.len() && 0 <= b < rec.len() && a != b ==> (#[trigger] rec[a]).0 != (#[trigger] rec[b]).0
}

/// Two records with unique keys and the same entries, in any order, hold
/// the same value under every name.
pub proof fn lemma_same_entries_same_lookup(r1: RecordV, r2: RecordV, name: Seq<char>)
    requires
        keys_unique(r1),
        keys_unique(r2),
        r1.to_set() == r2.to_set(),
    ensures
        lookup(r1, name) == lookup(r2, name),
{
    if exists|k: int| 0 <= k < r1.len() && (#[trigger] r1[k]).0 == name {
        let k = choose|k: int| 0 <= k < r1.len() && (#[trigger] r1[k]).0 == name;
        lemma_lookup_first(r1, name, k);
        assert(r1.to_set().contains(r1[k]));
        assert(r2.to_set().contains(r1[k]));
        let k2 = choose|k2: int| 0 <= k2 < r2.len() && r2[k2] == r1[k];
        lemma_lookup_first(r2, name, k2);
    } else {
        lemma_lookup_absent(r1, name);
        if exists|k: int| 0 <= k < r2.len() && (#[trigger] r2[k]).0 == name {
            let k = choose|k: int| 0 <= k < r2.len() && (#[trigger] r2[k]).0 == name;
            assert(r2.to_set().contains(r2[k]));
            assert(r1.to_set().contains(r2[k]));
            let k1 = choose|k1: int| 0 <= k1 < r1.len() && r1[k1] == r2[k];
            assert(r1[k1].0 == name);
        }
        lemma_lookup_absent(r2, name);
    }
}

/// Field-order independence: rows whose mappings hold the same entries in
/// any order are accepted alike and encode into the same columns, since
/// values are found by name, not by position.
pub proof fn lemma_field_order_independent(
    fields: Seq<Field>,
    rows1: Seq<RecordV>,
    rows2: Seq<RecordV>,
    cols: Seq<crate::column::ColumnArray>,
)
    requires
        rows1.len() == rows2.len(),
        forall|i: int| 0 <= i < rows1.len() ==> keys_unique(#[trigger] rows1[i]) && keys_unique(rows2[i])
            && rows1[i].to_set() == rows2[i].to_set(),
    ensures
        rows_conform(fields, rows1) <==> rows_conform(fields, rows2),
        encoded(fields, rows1, cols) <==> encoded(fields, rows2, cols),
{
    assert forall|i: int, name: Seq<char>| 0 <= i < rows1.len() implies #[trigger] lookup(rows1[i], name)
        == lookup(rows2[i], name) by {
        lemma_same_entries_same_lookup(rows1[i], rows2[i], name);
    }
    assert forall|name: Seq<char>| #[trigger] column_values(rows1, name) == column_values(rows2, name) by {
        assert(column_values(rows1, name) =~= column_values(rows2, name));
    }
    if rows_conform(fields, rows1) {
        assert forall|i: int, j: int| 0 <= i < rows2.len() && 0 <= j < fields.len() implies cell_ok(
            #[trigger] fields[j],
            #[trigger] rows2[i],
        ) by {
            assert(cell_ok(fields[j], rows1[i]));
            assert(lookup(rows1[i], fields[j].name@) == lookup(rows2[i], fields[j].name@));
        }
    }
    if rows_conform(fields, rows2) {
        assert forall|i: int, j: int| 0 <= i < rows1.len() && 0 <= j < fields.len() implies cell_ok(
            #[trigger] fields[j],
            #[trigger] rows1[i],
        ) by {
            assert(cell_ok(fields[j], rows2[i]));
            assert(lookup(rows1[i], fields[j].name@) == lookup(rows2[i], fields[j].name@));
        }
    }
}

} // verus!
