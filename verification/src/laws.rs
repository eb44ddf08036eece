//! The library's laws: properties of the adapter proved once, for every
//! session and every edit list.
use vstd::prelude::*;

use crate::container::{fresh_model, table_model, EntryModel};
use crate::error::ErrModel;
use crate::format::{expected_item_name, plan, plan_one, EraFormat};
use crate::item::{EraItem, UpdateItem};

verus! {

/// When every operation of an edit list is accepted, the planned entries are
/// exactly the per-operation results, in list order.
pub proof fn lemma_plan_pointwise(items: Seq<EraItem>, es: Seq<EntryModel>, ops: Seq<UpdateItem>)
    requires
        forall|i: int| 0 <= i < ops.len() ==> (#[trigger] plan_one(items, es, ops[i])) is Ok,
    ensures
        plan(items, es, ops) matches Ok(res) && res.len() == ops.len() && forall|i: int|
            0 <= i < ops.len() ==> res[i] == (#[trigger] plan_one(items, es, ops[i]))->Ok_0,
    decreases ops.len(),
{
    if ops.len() > 0 {
        let front_ops = ops.drop_last();
        assert forall|i: int| 0 <= i < front_ops.len() implies (#[trigger] plan_one(
            items,
            es,
            front_ops[i],
        )) is Ok by {
            assert(front_ops[i] == ops[i]);
        }
        lemma_plan_pointwise(items, es, front_ops);
        let fr = plan(items, es, front_ops)->Ok_0;
        assert(ops.last() == ops[ops.len() - 1]);
        let en = plan_one(items, es, ops.last())->Ok_0;
        let res = plan(items, es, ops)->Ok_0;
        assert(res == fr.push(en));
        assert forall|i: int| 0 <= i < ops.len() implies res[i] == (#[trigger] plan_one(
            items,
            es,
            ops[i],
        ))->Ok_0 by {
            if i < ops.len() - 1 {
                assert(res[i] == fr[i]);
                assert(fr[i] == plan_one(items, es, front_ops[i])->Ok_0);
                assert(front_ops[i] == ops[i]);
            } else {
                assert(res[i] == en);
            }
        }
    }
}

/// On a valid open session the items are exactly the container's entries
/// except the reserved entry 0, in original order: there is one item per
/// remaining entry, and no item originates from position 0.
pub proof fn lemma_items_skip_reserved_entry(f: EraFormat)
    requires
        f.inv(),
        f.is_open(),
    ensures
        f.items@.len() == f.entry_models().len() - 1,
        forall|j: int|
            0 <= j < f.items@.len() ==> (#[trigger] f.items@[j]).era_index == j + 1
                && f.items@[j].era_index != 0,
{
}

/// On a valid session, every item's payload has exactly the decompressed
/// size its descriptor reports.
pub proof fn lemma_payload_matches_reported_size(f: EraFormat, j: int)
    requires
        f.inv(),
        0 <= j < f.items@.len(),
    ensures
        f.entry_models()[f.items@[j].era_index as int].payload.len() == f.items@[j].info.size,
{
}

/// Round trip without recompression: rebuilding an archive from
/// copy-existing operations that reference every item in original order,
/// then opening the result, yields an archive whose every item extracts to
/// exactly the bytes the original item extracts to.
pub proof fn lemma_copy_all_round_trip(f: EraFormat, ops: Seq<UpdateItem>, g: EraFormat)
    requires
        f.inv(),
        f.is_open(),
        ops.len() == f.items@.len(),
        forall|i: int|
            0 <= i < ops.len() ==> ((#[trigger] ops[i]) matches UpdateItem::CopyExisting {
                index,
                new_name,
            } && index == i && new_name is None),
        g.inv(),
        g.is_open(),
        plan(f.items@, f.entry_models(), ops) matches Ok(es) && g.entry_models() == seq![
            table_model(),
        ] + es,
    ensures
        g.items@.len() == f.items@.len(),
        forall|i: int|
            0 <= i < g.items@.len()
                ==> #[trigger] g.entry_models()[g.items@[i].era_index as int].payload
                == f.entry_models()[f.items@[i].era_index as int].payload,
        forall|i: int|
            0 <= i < g.items@.len() ==> {
                &&& (#[trigger] g.items@[i]).info.name@ == f.items@[i].info.name@
                &&& g.items@[i].info.size == f.items@[i].info.size
                &&& g.items@[i].info.packed_size == f.items@[i].info.packed_size
            },
{
    assert(forall|i: int| 0 <= i < ops.len() ==> (#[trigger] plan_one(
        f.items@,
        f.entry_models(),
        ops[i],
    )) is Ok);
    lemma_plan_pointwise(f.items@, f.entry_models(), ops);
    let es = plan(f.items@, f.entry_models(), ops)->Ok_0;
    assert forall|i: int| 0 <= i < g.items@.len() implies #[trigger] g.entry_models()[g.items@[i].era_index as int].payload
        == f.entry_models()[f.items@[i].era_index as int].payload by {
        assert(g.items@[i].era_index == i + 1);
        assert(g.entry_models()[i + 1] == es[i]);
        assert(es[i] == plan_one(f.items@, f.entry_models(), ops[i])->Ok_0);
    }
    assert forall|i: int| 0 <= i < g.items@.len() implies {
        &&& (#[trigger] g.items@[i]).info.name@ == f.items@[i].info.name@
        &&& g.items@[i].info.size == f.items@[i].info.size
        &&& g.items@[i].info.packed_size == f.items@[i].info.packed_size
    } by {
        assert(g.items@[i].era_index == i + 1);
        assert(g.entry_models()[i + 1] == es[i]);
        assert(es[i] == plan_one(f.items@, f.entry_models(), ops[i])->Ok_0);
        assert(es[i].name == Some(f.items@[i].info.name@));
        assert(g.items@[i].info.name@ == expected_item_name(g.entry_models()[i + 1], i + 1));
    }
}

/// The copy path reuses the referenced entry's stored chunk verbatim: the
/// planned entry carries the source's compressed bytes, recorded size,
/// integrity digest and payload unchanged — nothing is decompressed,
/// recompressed, or redigested.
pub proof fn lemma_copy_reuses_stored_chunk(
    items: Seq<EraItem>,
    es: Seq<EntryModel>,
    index: usize,
    new_name: Option<String>,
)
    requires
        index < items.len(),
    ensures
        plan_one(items, es, UpdateItem::CopyExisting { index, new_name }) matches Ok(re) && {
            let src = es[items[index as int].era_index as int];
            &&& re.compressed == src.compressed
            &&& re.decomp_size == src.decomp_size
            &&& re.digest == src.digest
            &&& re.payload == src.payload
        },
{
}

/// A replacement name on a copy-existing operation changes only the name of
/// the resulting item: payload, compressed chunk, recorded size and digest
/// are those of the plain copy.
pub proof fn lemma_rename_changes_only_name(
    items: Seq<EraItem>,
    es: Seq<EntryModel>,
    index: usize,
    nm: String,
)
    requires
        index < items.len(),
    ensures
        plan_one(items, es, UpdateItem::CopyExisting { index, new_name: Some(nm) }) matches Ok(re)
            && plan_one(items, es, UpdateItem::CopyExisting { index, new_name: None }) matches Ok(
            pl,
        ) && {
            &&& re.payload == pl.payload
            &&& re.compressed == pl.compressed
            &&& re.decomp_size == pl.decomp_size
            &&& re.digest == pl.digest
            &&& re.name == Some(nm@)
            &&& forall|p: int| #[trigger] expected_item_name(re, p) == nm@
        },
{
}

/// Adding a single new piece of content and opening the result yields
/// exactly one item, under the supplied name, whose payload is exactly the
/// supplied bytes.
pub proof fn lemma_add_new_round_trip(
    items: Seq<EraItem>,
    es: Seq<EntryModel>,
    name: String,
    data: Vec<u8>,
    g: EraFormat,
)
    requires
        g.inv(),
        g.is_open(),
        g.entry_models() == seq![table_model(), fresh_model(name@, data@)],
    ensures
        plan(items, es, seq![UpdateItem::AddNew { name, data }]) == Result::<
            Seq<EntryModel>,
            ErrModel,
        >::Ok(seq![fresh_model(name@, data@)]),
        g.items@.len() == 1,
        g.items@[0].info.name@ == name@,
        g.entry_models()[g.items@[0].era_index as int].payload == data@,
        g.items@[0].info.size == data@.len(),
{
    let ops = seq![UpdateItem::AddNew { name, data }];
    assert(ops.drop_last() =~= Seq::<UpdateItem>::empty());
    assert(plan(items, es, ops.drop_last()) == Result::<Seq<EntryModel>, ErrModel>::Ok(
        Seq::<EntryModel>::empty(),
    ));
    assert(ops.last() == UpdateItem::AddNew { name, data });
    assert(plan(items, es, ops)->Ok_0 =~= seq![fresh_model(name@, data@)]);
    assert(g.items@[0].era_index == 1);
    assert(g.entry_models()[1] == fresh_model(name@, data@));
}

/// A copy-existing operation that references any index at or past the item
/// count is rejected with `IndexOutOfBounds` carrying that index and the
/// count, and so is any edit list beginning with it.
pub proof fn lemma_out_of_bounds_copy_rejected(
    items: Seq<EraItem>,
    es: Seq<EntryModel>,
    index: usize,
    new_name: Option<String>,
)
    requires
        index >= items.len(),
    ensures
        plan_one(items, es, UpdateItem::CopyExisting { index, new_name }) == Result::<
            EntryModel,
            ErrModel,
        >::Err(ErrModel::IndexOutOfBounds { index: index as int, count: items.len() as int }),
        plan(items, es, seq![UpdateItem::CopyExisting { index, new_name }]) == Result::<
            Seq<EntryModel>,
            ErrModel,
        >::Err(ErrModel::IndexOutOfBounds { index: index as int, count: items.len() as int }),
{
    let ops = seq![UpdateItem::CopyExisting { index, new_name }];
    assert(ops.drop_last() =~= Seq::<UpdateItem>::empty());
    assert(plan(items, es, ops.drop_last()) == Result::<Seq<EntryModel>, ErrModel>::Ok(
        Seq::<EntryModel>::empty(),
    ));
    assert(ops.last() == UpdateItem::CopyExisting { index, new_name });
}

/// The class identifier is a format constant: any two values meeting
/// `class_id`'s contract are the same 16 bytes.
pub proof fn lemma_class_id_constant(a: Seq<u8>, b: Seq<u8>)
    requires
        a == crate::format::class_id_spec(),
        b == crate::format::class_id_spec(),
    ensures
        a == b,
        a.len() == 16,
{
}

} // verus!

