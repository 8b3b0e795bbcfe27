//! The table of known chip families and their USB identifiers.
use vstd::prelude::*;

verus! {

/// The USB identifiers of a device in bootloader mode.
#[derive(Clone, Copy, Debug, PartialEq, Eq, Structural)]
pub struct IdentifierPair {
    pub vendor_id: u16,
    pub product_id: u16,
}

/// A chip family and the identifier pairs its bootloaders answer to.
#[derive(Debug)]
pub struct ChipEntry {
    pub name: String,
    pub pairs: Vec<IdentifierPair>,
}

/// Mathematical model of a [`ChipEntry`].
pub struct EntryModel {
    pub name: Seq<char>,
    pub pairs: Seq<IdentifierPair>,
}

impl View for ChipEntry {
    type V = EntryModel;

    open spec fn view(&self) -> EntryModel {
        EntryModel { name: self.name@, pairs: self.pairs@ }
    }
}

/// The model of a list of entries.
pub open spec fn entries_view(entries: Seq<ChipEntry>) -> Seq<EntryModel> {
    entries.map_values(|e: ChipEntry| e@)
}

/// The known chip families, in listing order.
pub open spec fn table() -> Seq<EntryModel> {
    seq![
        EntryModel {
            name: "stm32"@,
            pairs: seq![IdentifierPair { vendor_id: 0x0483, product_id: 0xdf11 }],
        },
        EntryModel {
            name: "gd32vf103"@,
            pairs: seq![IdentifierPair { vendor_id: 0x28e9, product_id: 0x0189 }],
        },
    ]
}

/// The candidate pairs `entries` holds under `name`, matched exactly; the
/// first entry of that name decides.
pub open spec fn lookup_in(entries: Seq<EntryModel>, name: Seq<char>) -> Option<
    Seq<IdentifierPair>,
>
    decreases entries.len(),
{
    if entries.len() == 0 {
        None
    } else if entries[0].name == name {
        Some(entries[0].pairs)
    } else {
        lookup_in(entries.skip(1), name)
    }
}

/// Whether `pair` is a candidate of some entry of `entries`.
pub open spec fn known_in(entries: Seq<EntryModel>, pair: IdentifierPair) -> bool {
    exists|i: int, j: int|
        0 <= i < entries.len() && 0 <= j < entries[i].pairs.len() && #[trigger] entries[i].pairs[j]
            == pair
}

/// The table of known chip families.
pub fn vendor_map() -> (r: Vec<ChipEntry>)
    ensures
        entries_view(r@) == table(),
{
    let mut stm32: Vec<IdentifierPair> = Vec::new();
    stm32.push(IdentifierPair { vendor_id: 0x0483, product_id: 0xdf11 });
    let mut gd32: Vec<IdentifierPair> = Vec::new();
    gd32.push(IdentifierPair { vendor_id: 0x28e9, product_id: 0x0189 });
    let mut entries: Vec<ChipEntry> = Vec::new();
    entries.push(ChipEntry { name: "stm32".to_owned(), pairs: stm32 });
    entries.push(ChipEntry { name: "gd32vf103".to_owned(), pairs: gd32 });
    proof {
        assert(entries@[0]@.pairs =~= table()[0].pairs);
        assert(entries@[1]@.pairs =~= table()[1].pairs);
        assert(entries_view(entries@) =~= table());
    }
    entries
}

/// Finds the candidate pairs of `name` among `entries`.
pub fn lookup_among(entries: &Vec<ChipEntry>, name: &String) -> (r: Option<Vec<IdentifierPair>>)
    ensures
        match r {
            Some(pairs) => lookup_in(entries_view(entries@), name@) == Some(pairs@),
            None => lookup_in(entries_view(entries@), name@) is None,
        },
{
    let ghost all = entries_view(entries@);
    let mut i: usize = 0;
    proof {
        assert(all.skip(0) =~= all);
    }
    while i < entries.len()
        invariant
            0 <= i <= entries.len(),
            all == entries_view(entries@),
            lookup_in(all, name@) == lookup_in(all.skip(i as int), name@),
        decreases entries.len() - i,
    {
        proof {
            assert(all.skip(i as int)[0] == entries@[i as int]@);
            assert(all.skip(i as int).skip(1) =~= all.skip(i as int + 1));
        }
        if entries[i].name == *name {
            let mut pairs: Vec<IdentifierPair> = Vec::new();
            let src = &entries[i].pairs;
            let mut j: usize = 0;
            while j < src.len()
                invariant
                    0 <= j <= src.len(),
                    pairs@ == src@.take(j as int),
                decreases src.len() - j,
            {
                pairs.push(src[j]);
                proof {
                    assert(src@.take(j as int).push(src@[j as int]) =~= src@.take(j as int + 1));
                }
                j += 1;
            }
            proof {
                assert(src@.take(src.len() as int) =~= src@);
            }
            return Some(pairs);
        }
        i += 1;
    }
    None
}

/// Finds the candidate pairs of a chip family by its exact name.
pub fn lookup(name: &String) -> (r: Option<Vec<IdentifierPair>>)
    ensures
        match r {
            Some(pairs) => lookup_in(table(), name@) == Some(pairs@),
            None => lookup_in(table(), name@) is None,
        },
{
    let entries = vendor_map();
    lookup_among(&entries, name)
}

/// Whether `pair` is a candidate of some known chip family.
pub fn is_known(pair: IdentifierPair) -> (r: bool)
    ensures
        r == known_in(table(), pair),
{
    let entries = vendor_map();
    let ghost all = entries_view(entries@);
    let mut i: usize = 0;
    while i < entries.len()
        invariant
            0 <= i <= entries.len(),
            all == entries_view(entries@),
            all == table(),
            forall|a: int, b: int|
                0 <= a < i && 0 <= b < all[a].pairs.len() ==> #[trigger] all[a].pairs[b] != pair,
        decreases entries.len() - i,
    {
        let candidates = &entries[i].pairs;
        let mut j: usize = 0;
        while j < candidates.len()
            invariant
                0 <= j <= candidates.len(),
                0 <= i < entries.len(),
                all == entries_view(entries@),
                all == table(),
                candidates@ == all[i as int].pairs,
                forall|b: int| 0 <= b < j ==> #[trigger] candidates@[b] != pair,
            decreases candidates.len() - j,
        {
            if candidates[j] == pair {
                assert(all[i as int].pairs[j as int] == pair);
                return true;
            }
            j += 1;
        }
        i += 1;
    }
    false
}

/// No chip family is listed twice.
pub proof fn law_names_unique()
    ensures
        forall|i: int, j: int|
            0 <= i < j < table().len() ==> #[trigger] table()[i].name != #[trigger] table()[j].name,
{
    reveal_strlit("stm32");
    reveal_strlit("gd32vf103");
    assert("stm32"@.len() != "gd32vf103"@.len());
}

} // verus!
