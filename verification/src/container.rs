//! The parsed form of an archive container.
//!
//! A container is the value the format's parser yields after the crypto
//! transform: a sequence of entries, in which position 0 is the reserved
//! filename table. Each entry carries its stored chunk — the compressed
//! bytes, the recorded decompressed size, and the integrity digest of the
//! compressed bytes — together with the payload that chunk decodes to; the
//! codec that would rederive the payload on extraction stays outside this
//! crate, so the pair travels as one value.
use vstd::prelude::*;

verus! {

/// Ghost form of one container entry.
#[verifier::ext_equal]
pub ghost struct EntryModel {
    /// Filename decoded from the filename table, if any.
    pub name: Option<Seq<char>>,
    /// The decompressed content of the entry.
    pub payload: Seq<u8>,
    /// The compressed bytes stored in the container.
    pub compressed: Seq<u8>,
    /// The decompressed size recorded in the entry's metadata.
    pub decomp_size: u64,
    /// Integrity digest of the compressed bytes.
    pub digest: u128,
}

/// One record of a parsed container.
#[derive(Debug, PartialEq, Eq)]
pub struct ContainerEntry {
    /// Filename decoded from the filename table, if any.
    pub name: Option<String>,
    /// The decompressed content of the entry.
    pub payload: Vec<u8>,
    /// The compressed bytes stored in the container.
    pub compressed: Vec<u8>,
    /// The decompressed size recorded in the entry's metadata.
    pub decomp_size: u64,
    /// Integrity digest of the compressed bytes.
    pub digest: u128,
}

impl View for ContainerEntry {
    type V = EntryModel;

    open spec fn view(&self) -> EntryModel {
        EntryModel {
            name: match self.name {
                Some(n) => Some(n@),
                None => None,
            },
            payload: self.payload@,
            compressed: self.compressed@,
            decomp_size: self.decomp_size,
            digest: self.digest,
        }
    }
}

/// A parsed archive container.
#[derive(Debug, PartialEq, Eq)]
pub struct Container {
    /// The entries, in container order; position 0 is the filename table.
    pub entries: Vec<ContainerEntry>,
}

impl View for Container {
    type V = Seq<EntryModel>;

    open spec fn view(&self) -> Seq<EntryModel> {
        self.entries@.map_values(|e: ContainerEntry| e@)
    }
}

/// An entry's recorded decompressed size matches its payload.
pub open spec fn entry_wf(m: EntryModel) -> bool {
    m.decomp_size == m.payload.len()
}

/// A valid container: it holds at least the reserved filename table, and
/// every entry's recorded decompressed size matches its payload.
pub open spec fn entries_wf(s: Seq<EntryModel>) -> bool {
    &&& s.len() >= 1
    &&& forall|i: int| 0 <= i < s.len() ==> entry_wf(#[trigger] s[i])
}

impl Container {
    /// Validity of a parsed container.
    pub open spec fn wf(&self) -> bool {
        entries_wf(self@)
    }
}

/// Sum of the bytes of `s`: the integrity digest this crate's model codec
/// assigns to a chunk it stores.
pub open spec fn byte_sum(s: Seq<u8>) -> int
    decreases s.len(),
{
    if s.len() == 0 {
        0
    } else {
        byte_sum(s.drop_last()) + s.last()
    }
}

/// `byte_sum` is bounded by 255 per byte.
pub proof fn lemma_byte_sum_bound(s: Seq<u8>)
    ensures
        0 <= byte_sum(s) <= 255 * s.len(),
    decreases s.len(),
{
    if s.len() > 0 {
        lemma_byte_sum_bound(s.drop_last());
    }
}

/// Computes [`byte_sum`] of a byte vector.
pub fn sum_bytes(v: &Vec<u8>) -> (r: u128)
    ensures
        r == byte_sum(v@),
{
    let mut acc: u128 = 0;
    let mut i: usize = 0;
    while i < v.len()
        invariant
            0 <= i <= v@.len(),
            acc == byte_sum(v@.take(i as int)),
            acc <= 255 * i,
        decreases v@.len() - i,
    {
        proof {
            assert(v@.take(i + 1).drop_last() =~= v@.take(i as int));
            assert(v@.take(i + 1).last() == v@[i as int]);
        }
        acc = acc + v[i] as u128;
        i = i + 1;
    }
    proof {
        assert(v@.take(v@.len() as int) =~= v@);
    }
    acc
}

/// Copies a byte vector.
pub fn clone_bytes(v: &Vec<u8>) -> (r: Vec<u8>)
    ensures
        r@ == v@,
{
    let mut r: Vec<u8> = Vec::new();
    let mut i: usize = 0;
    while i < v.len()
        invariant
            0 <= i <= v@.len(),
            r@ == v@.take(i as int),
        decreases v@.len() - i,
    {
        r.push(v[i]);
        proof {
            assert(v@.take(i + 1) =~= v@.take(i as int).push(v@[i as int]));
        }
        i = i + 1;
    }
    proof {
        assert(v@.take(v@.len() as int) =~= v@);
    }
    r
}

/// The reserved filename-table entry a rebuilt container starts with.
pub open spec fn table_model() -> EntryModel {
    EntryModel {
        name: None,
        payload: Seq::empty(),
        compressed: Seq::empty(),
        decomp_size: 0,
        digest: 0,
    }
}

/// Builds the reserved filename-table entry of a rebuilt container.
pub fn table_entry() -> (r: ContainerEntry)
    ensures
        r@ == table_model(),
{
    let r = ContainerEntry {
        name: None,
        payload: Vec::new(),
        compressed: Vec::new(),
        decomp_size: 0,
        digest: 0,
    };
    assert(r@ =~= table_model());
    r
}

/// The entry the model codec stores for freshly added content: the chunk is
/// the content itself, and the digest is its [`byte_sum`].
pub open spec fn fresh_model(name: Seq<char>, data: Seq<u8>) -> EntryModel {
    EntryModel {
        name: Some(name),
        payload: data,
        compressed: data,
        decomp_size: data.len() as u64,
        digest: byte_sum(data) as u128,
    }
}

/// Stores freshly added content as a new entry, deriving its chunk with the
/// model codec.
pub fn fresh_entry(name: String, data: Vec<u8>) -> (r: ContainerEntry)
    ensures
        r@ == fresh_model(name@, data@),
        entry_wf(r@),
{
    let ghost n0 = name@;
    let ghost d0 = data@;
    let compressed = clone_bytes(&data);
    let digest = sum_bytes(&data);
    let decomp_size = data.len() as u64;
    let r = ContainerEntry { name: Some(name), payload: data, compressed, decomp_size, digest };
    assert(r@ =~= fresh_model(n0, d0));
    r
}

/// Ghost form of a sequence of entries.
pub open spec fn entries_view(s: Seq<ContainerEntry>) -> Seq<EntryModel> {
    s.map_values(|e: ContainerEntry| e@)
}

/// Assembles a rebuilt container from the entries staged for it, placing the
/// reserved filename table in front.
pub fn assemble(written: Vec<ContainerEntry>) -> (r: Container)
    ensures
        r@ == seq![table_model()] + entries_view(written@),
{
    let ghost w0 = written@;
    let mut tail = written;
    let mut entries: Vec<ContainerEntry> = Vec::new();
    entries.push(table_entry());
    entries.append(&mut tail);
    let r = Container { entries };
    proof {
        let expected = seq![table_model()] + entries_view(w0);
        assert forall|i: int| 0 <= i < r@.len() implies r@[i] == expected[i] by {
            if i > 0 {
                assert(r.entries@[i] == w0[i - 1]);
            }
        }
        assert(r@ =~= expected);
    }
    r
}

} // verus!
