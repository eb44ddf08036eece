//! The adapter session: format identity, open/close lifecycle, the read
//! path, and the update planner.
use vstd::prelude::*;

use crate::container::{
    assemble, clone_bytes, entries_view, entries_wf, entry_wf, fresh_entry, fresh_model,
    table_model, Container, ContainerEntry, EntryModel,
};
use crate::error::{EraError, ErrModel};
use crate::item::{ArchiveItem, EraItem, UpdateItem};
use crate::names::{placeholder_chars, placeholder_name};
use vstd::string::StringExecFns;

verus! {

/// The 16 bytes of the format's class identifier: the raw little-endian
/// layout of the GUID `{12345678-ABCD-EF01-2345-6789ABCDEF01}`, a
/// cross-implementation compatibility contract with the host.
pub open spec fn class_id_spec() -> Seq<u8> {
    seq![
        0x78u8,
        0x56u8,
        0x34u8,
        0x12u8,
        0xCDu8,
        0xABu8,
        0x01u8,
        0xEFu8,
        0x23u8,
        0x45u8,
        0x67u8,
        0x89u8,
        0xABu8,
        0xCDu8,
        0xEFu8,
        0x01u8,
    ]
}

/// The name the host reports for an entry: its decoded filename if present,
/// else the placeholder synthesized from its container position.
pub open spec fn expected_item_name(m: EntryModel, position: int) -> Seq<char> {
    match m.name {
        Some(n) => n,
        None => placeholder_chars(position),
    }
}

/// The item list mirrors the container's entries, skipping the reserved
/// entry 0, in original relative order.
pub open spec fn items_correspond(items: Seq<EraItem>, es: Seq<EntryModel>) -> bool {
    &&& items.len() == es.len() - 1
    &&& forall|j: int|
        0 <= j < items.len() ==> {
            &&& (#[trigger] items[j]).era_index == j + 1
            &&& items[j].info.name@ == expected_item_name(es[j + 1], j + 1)
            &&& items[j].info.size == es[j + 1].decomp_size
            &&& items[j].info.packed_size == es[j + 1].compressed.len()
        }
}

/// The adapter: one archive session per instance.
pub struct EraFormat {
    /// The parsed container, while an archive is open.
    pub archive: Option<Container>,
    /// A copy of the raw source bytes, kept for later update use.
    pub archive_data: Option<Vec<u8>>,
    /// Host-facing items, one per container entry except entry 0.
    pub items: Vec<EraItem>,
    /// Physical byte size of the opened archive.
    pub archive_size: u64,
}

impl EraFormat {
    /// Whether an archive is currently open.
    pub open spec fn is_open(&self) -> bool {
        self.archive is Some
    }

    /// The entries of the open container.
    pub open spec fn entry_models(&self) -> Seq<EntryModel> {
        match self.archive {
            Some(c) => c@,
            None => Seq::empty(),
        }
    }

    /// Session validity: either fully open and consistent, or fully empty.
    pub open spec fn inv(&self) -> bool {
        match self.archive {
            Some(c) => {
                &&& entries_wf(c@)
                &&& items_correspond(self.items@, c@)
                &&& self.archive_data matches Some(d) && self.archive_size == d@.len()
            },
            None => {
                &&& self.items@.len() == 0
                &&& self.archive_data is None
                &&& self.archive_size == 0
            },
        }
    }

    /// The format's display name.
    pub fn name() -> (r: &'static str)
        ensures
            r@ == "ERA"@,
    {
        "ERA"
    }

    /// The file extension the format claims.
    pub fn extension() -> (r: &'static str)
        ensures
            r@ == "era"@,
    {
        "era"
    }

    /// The format's 16-byte binary class identifier. Its value never varies
    /// between instances or invocations.
    pub fn class_id() -> (r: [u8; 16])
        ensures
            r@ == class_id_spec(),
    {
        let r: [u8; 16] = [
            0x78, 0x56, 0x34, 0x12, 0xCD, 0xAB, 0x01, 0xEF, 0x23, 0x45, 0x67, 0x89, 0xAB, 0xCD,
            0xEF, 0x01,
        ];
        assert(r@ =~= class_id_spec());
        r
    }

    /// The archive's bytes are uniformly encrypted, so no fixed-offset
    /// signature exists for detection.
    pub fn signature() -> (r: Option<&'static [u8]>)
        ensures
            r is None,
    {
        None
    }

    /// Whether the format supports writing new archives.
    pub fn supports_write() -> (r: bool)
        ensures
            r,
    {
        true
    }

    /// Whether the format supports updating existing archives.
    pub fn supports_update() -> (r: bool)
        ensures
            r,
    {
        true
    }

    /// The number of items the host can address.
    pub fn item_count(&self) -> (r: usize)
        ensures
            r == self.items@.len(),
    {
        self.items.len()
    }

    /// The descriptor of the item at `index`, if it exists.
    pub fn get_item(&self, index: usize) -> (r: Option<&ArchiveItem>)
        ensures
            index < self.items@.len() ==> (r matches Some(it) && *it == self.items@[index as int].info),
            index >= self.items@.len() ==> r is None,
    {
        if index < self.items.len() {
            Some(&self.items[index].info)
        } else {
            None
        }
    }

    /// Physical byte size of the currently open archive; zero when none is.
    pub fn physical_size(&self) -> (r: Option<u64>)
        ensures
            r == Some(self.archive_size),
    {
        Some(self.archive_size)
    }

    /// Releases the container, the retained raw bytes, and the item list,
    /// and resets the physical size. Safe in every state: on a session that
    /// was never opened, failed to open, or was already closed, it leaves
    /// the same empty state.
    pub fn close(&mut self)
        ensures
            final(self).archive is None,
            final(self).archive_data is None,
            final(self).items@.len() == 0,
            final(self).archive_size == 0,
            final(self).inv(),
    {
        *self = EraFormat { archive: None, archive_data: None, items: Vec::new(), archive_size: 0 };
    }

    /// Opens an archive session from the raw source bytes and the outcome of
    /// the outside parse of their decrypted form. Atomic: on success the
    /// session is fully populated; on parse failure it is left fully empty,
    /// whatever it held before. A second open behaves as a first open on the
    /// new bytes.
    pub fn open(&mut self, data: Vec<u8>, parsed: Result<Container, String>) -> (r: Result<
        (),
        EraError,
    >)
        requires
            parsed matches Ok(c) ==> c.wf(),
        ensures
            final(self).inv(),
            match parsed {
                Ok(c) => {
                    &&& r is Ok
                    &&& final(self).archive == Some(c)
                    &&& final(self).archive_data == Some(data)
                    &&& final(self).archive_size == data@.len()
                    &&& items_correspond(final(self).items@, c@)
                },
                Err(m) => {
                    &&& r == Result::<(), EraError>::Err(EraError::InvalidFormat(m))
                    &&& final(self).archive is None
                    &&& final(self).items@.len() == 0
                    &&& final(self).archive_size == 0
                },
            },
    {
        match parsed {
            Err(msg) => {
                *self = EraFormat {
                    archive: None,
                    archive_data: None,
                    items: Vec::new(),
                    archive_size: 0,
                };
                Err(EraError::InvalidFormat(msg))
            },
            Ok(c) => {
                let mut items: Vec<EraItem> = Vec::new();
                let n = c.entries.len();
                let mut idx: usize = 1;
                while idx < n
                    invariant
                        1 <= idx <= n,
                        n == c.entries@.len(),
                        entries_wf(c@),
                        items@.len() == idx - 1,
                        forall|j: int|
                            0 <= j < items@.len() ==> {
                                &&& (#[trigger] items@[j]).era_index == j + 1
                                &&& items@[j].info.name@ == expected_item_name(c@[j + 1], j + 1)
                                &&& items@[j].info.size == c@[j + 1].decomp_size
                                &&& items@[j].info.packed_size == c@[j + 1].compressed.len()
                            },
                    decreases n - idx,
                {
                    let entry = &c.entries[idx];
                    let name: String = match &entry.name {
                        Some(n) => n.clone(),
                        None => placeholder_name(idx as u64),
                    };
                    let info = ArchiveItem {
                        name,
                        size: entry.decomp_size,
                        packed_size: entry.compressed.len() as u64,
                    };
                    items.push(EraItem { info, era_index: idx });
                    idx = idx + 1;
                }
                let size = data.len() as u64;
                *self = EraFormat {
                    archive: Some(c),
                    archive_data: Some(data),
                    items,
                    archive_size: size,
                };
                Ok(())
            },
        }
    }

    /// Translates an external item index into the item's full decompressed
    /// payload. Fails with `IndexOutOfBounds` when the index has no item;
    /// on a valid session every in-bounds index yields the payload, whose
    /// length is the item's reported decompressed size.
    pub fn extract(&mut self, index: usize) -> (r: Result<Vec<u8>, EraError>)
        requires
            old(self).inv(),
        ensures
            *final(self) == *old(self),
            index < old(self).items@.len() ==> (r matches Ok(v)
                && v@ == old(self).entry_models()[old(self).items@[index as int].era_index as int].payload
                && v@.len() == old(self).items@[index as int].info.size),
            index >= old(self).items@.len() ==> r == Result::<Vec<u8>, EraError>::Err(
                EraError::IndexOutOfBounds { index, count: old(self).items@.len() as usize },
            ),
    {
        if index >= self.items.len() {
            return Err(EraError::IndexOutOfBounds { index, count: self.items.len() });
        }
        let era_index = self.items[index].era_index;
        match &self.archive {
            None => {
                // A non-empty item list implies an open archive on a valid
                // session, so this caller-contract violation cannot arise
                // here; the error mirrors the host-facing taxonomy.
                assert(false);
                Err(EraError::Other(String::from_str("archive not open")))
            },
            Some(c) => Ok(clone_bytes(&c.entries[era_index].payload)),
        }
    }
}

/// The entry one edit operation stages for the rebuilt container, or the
/// failure it is rejected with.
///
/// A copy reuses the referenced entry's stored chunk — compressed bytes,
/// recorded size and digest travel verbatim, nothing is decompressed or
/// recompressed — under the replacement name if one was supplied, else the
/// item's reported name. An addition stores fresh content through the model
/// codec.
pub open spec fn plan_one(items: Seq<EraItem>, es: Seq<EntryModel>, op: UpdateItem) -> Result<
    EntryModel,
    ErrModel,
> {
    match op {
        UpdateItem::CopyExisting { index, new_name } => {
            if index >= items.len() {
                Err(ErrModel::IndexOutOfBounds { index: index as int, count: items.len() as int })
            } else {
                let src = es[items[index as int].era_index as int];
                let name = match new_name {
                    Some(n) => n@,
                    None => items[index as int].info.name@,
                };
                Ok(
                    EntryModel {
                        name: Some(name),
                        payload: src.payload,
                        compressed: src.compressed,
                        decomp_size: src.decomp_size,
                        digest: src.digest,
                    },
                )
            }
        },
        UpdateItem::AddNew { name, data } => Ok(fresh_model(name@, data@)),
    }
}

/// The entries an edit list stages, in list order, or the first failure.
pub open spec fn plan(items: Seq<EraItem>, es: Seq<EntryModel>, ops: Seq<UpdateItem>) -> Result<
    Seq<EntryModel>,
    ErrModel,
>
    decreases ops.len(),
{
    if ops.len() == 0 {
        Ok(Seq::empty())
    } else {
        match plan(items, es, ops.drop_last()) {
            Err(e) => Err(e),
            Ok(front) => match plan_one(items, es, ops.last()) {
                Err(e) => Err(e),
                Ok(entry) => Ok(front.push(entry)),
            },
        }
    }
}

/// Once a prefix of the edit list is rejected, the whole list is rejected
/// with that same first failure.
pub proof fn lemma_plan_err_persists(
    items: Seq<EraItem>,
    es: Seq<EntryModel>,
    ops: Seq<UpdateItem>,
    m: int,
)
    requires
        0 <= m <= ops.len(),
        plan(items, es, ops.take(m)) is Err,
    ensures
        plan(items, es, ops) == plan(items, es, ops.take(m)),
    decreases ops.len() - m,
{
    if m == ops.len() {
        assert(ops.take(m) =~= ops);
    } else {
        assert(ops.take(m + 1).drop_last() =~= ops.take(m));
        lemma_plan_err_persists(items, es, ops, m + 1);
    }
}

impl EraFormat {
    /// Plans a complete rebuilt container from an ordered edit list. The
    /// result's entry order is exactly the edit-list order, behind the
    /// reserved filename table; the first rejected operation fails the whole
    /// call and nothing is produced.
    pub fn update_streaming(&mut self, updates: Vec<UpdateItem>) -> (r: Result<
        Container,
        EraError,
    >)
        requires
            old(self).inv(),
        ensures
            *final(self) == *old(self),
            match plan(old(self).items@, old(self).entry_models(), updates@) {
                Ok(es) => (r matches Ok(c) && c@ == seq![table_model()] + es && entries_wf(c@)),
                Err(e) => (r matches Err(err) && err@ == e),
            },
    {
        let ghost items0 = self.items@;
        let ghost es0 = self.entry_models();
        let ghost ops = updates@;
        let mut out: Vec<ContainerEntry> = Vec::new();
        let n = updates.len();
        let mut k: usize = 0;
        while k < n
            invariant
                0 <= k <= n,
                n == ops.len(),
                ops == updates@,
                items0 == self.items@,
                es0 == self.entry_models(),
                self.inv(),
                plan(items0, es0, ops.take(k as int)) matches Ok(es) && entries_view(out@)
                    == es,
                forall|j: int|
                    0 <= j < out@.len() ==> entry_wf(#[trigger] entries_view(out@)[j]),
            decreases n - k,
        {
            proof {
                assert(ops.take(k + 1).drop_last() =~= ops.take(k as int));
                assert(ops.take(k + 1).last() == ops[k as int]);
            }
            let ghost prev = entries_view(out@);
            match &updates[k] {
                UpdateItem::CopyExisting { index, new_name } => {
                    let index = *index;
                    if index >= self.items.len() {
                        proof {
                            lemma_plan_err_persists(items0, es0, ops, k + 1);
                        }
                        return Err(
                            EraError::IndexOutOfBounds { index, count: self.items.len() },
                        );
                    }
                    let era_index = self.items[index].era_index;
                    let name: String = match new_name {
                        Some(nm) => nm.clone(),
                        None => self.items[index].info.name.clone(),
                    };
                    match &self.archive {
                        None => {
                            // On a valid session a non-empty item list
                            // implies an open archive, so an in-bounds copy
                            // can always read its source entry.
                            assert(false);
                            return Err(EraError::Other(String::from_str("archive not open")));
                        },
                        Some(c) => {
                            let src = &c.entries[era_index];
                            let entry = ContainerEntry {
                                name: Some(name),
                                payload: clone_bytes(&src.payload),
                                compressed: clone_bytes(&src.compressed),
                                decomp_size: src.decomp_size,
                                digest: src.digest,
                            };
                            out.push(entry);
                            proof {
                                assert(entries_view(out@) =~= prev.push(
                                    entry@,
                                ));
                            }
                        },
                    }
                },
                UpdateItem::AddNew { name, data } => {
                    let entry = fresh_entry(name.clone(), clone_bytes(data));
                    out.push(entry);
                    proof {
                        assert(entries_view(out@) =~= prev.push(entry@));
                    }
                },
            }
            k = k + 1;
        }
        proof {
            assert(ops.take(n as int) =~= ops);
        }
        let result = assemble(out);
        proof {
            assert forall|i: int| 0 <= i < result@.len() implies entry_wf(#[trigger] result@[i]) by {
                if i > 0 {
                    assert(result@[i] == entries_view(out@)[i - 1]);
                }
            }
        }
        Ok(result)
    }
}

impl Default for EraFormat {
    /// A fresh adapter with no open session.
    fn default() -> (r: Self)
        ensures
            r.inv(),
            r.archive is None,
            r.archive_data is None,
            r.items@.len() == 0,
            r.archive_size == 0,
    {
        EraFormat { archive: None, archive_data: None, items: Vec::new(), archive_size: 0 }
    }
}

} // verus!
