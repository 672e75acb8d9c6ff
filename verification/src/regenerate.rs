//! Regeneration: the whole set of tables is replaced at once by a new one,
//! numbered from one, each table with an id and a join code of its own.

use vstd::prelude::*;
use crate::kode::{
    is_kode, kode_of, kode_text, lemma_kode_of_injective, random_below, KODE_SPACE,
};
use crate::naming::{fresh_id, ID_LENGTH};
use crate::records::{meja_views, Meja, MejaView};
use crate::state::{distinct_ids, has_id, position_in, AppState, AppStateView};
use crate::text::{push_char, same_text};

verus! {

/// Why a regeneration did not take place.
#[derive(Clone, Copy, Debug, PartialEq, Eq, Structural)]
pub enum RegenerateError {
    /// There are not as many seeds as ids.
    CountMismatch,
    /// More tables were asked for than there are join codes.
    TooMany,
    /// Two of the ids are the same.
    DuplicateId,
}

/// The number that is tried at the given step of the search that starts
/// at `seed`: the numbers are walked upwards, around the end of the space
/// of join codes.
pub open spec fn probe(seed: int, step: int) -> int {
    (seed + step) % (KODE_SPACE as int)
}

/// `step` is the first step of the search from `seed` whose number is not
/// among the used ones.
pub open spec fn first_gap_at(used: Seq<int>, seed: int, step: int) -> bool {
    &&& 0 <= step < KODE_SPACE
    &&& !used.contains(probe(seed, step))
    &&& forall|u: int| 0 <= u < step ==> used.contains(#[trigger] probe(seed, u))
}

/// The number that the search from `seed` settles on: the first one, going
/// upwards from the seed, that is not used yet.
pub open spec fn next_code(used: Seq<int>, seed: int) -> int {
    probe(seed, choose|step: int| first_gap_at(used, seed, step))
}

/// The numbers of the join codes that the seeds give, one after the other:
/// each is searched from its seed among those not given out before it.
pub open spec fn codes_for(seeds: Seq<u32>) -> Seq<int>
    decreases seeds.len(),
{
    if seeds.len() == 0 {
        Seq::empty()
    } else {
        let before = codes_for(seeds.drop_last());
        before.push(next_code(before, seeds.last() as int))
    }
}

/// No two of the texts are the same.
pub open spec fn distinct_texts(texts: Seq<Seq<char>>) -> bool {
    forall|i: int, j: int| 0 <= i < j < texts.len() ==> #[trigger] texts[i] != #[trigger] texts[j]
}

/// No two tables of the sequence have the same join code.
pub open spec fn distinct_codes(tables: Seq<MejaView>) -> bool {
    forall|i: int, j: int|
        0 <= i < j < tables.len() ==> (#[trigger] tables[i]).kode != (#[trigger] tables[j]).kode
}

/// A table without participant and files.
pub open spec fn blank_table(id: Seq<char>, nomor: int, kode: Seq<char>) -> MejaView {
    MejaView {
        id,
        nomor: nomor as nat,
        kode,
        nama_peserta: None,
        files: Seq::empty(),
        last_upload: None,
    }
}

/// The tables that a regeneration from the ids and seeds puts in place:
/// as many as there are ids, in their order, numbered from one, each with
/// the join code that its seed gives, and without participant or files.
pub open spec fn regenerated(ids: Seq<String>, seeds: Seq<u32>) -> Seq<MejaView> {
    Seq::new(ids.len(), |i: int| blank_table(ids[i]@, i + 1, kode_of(codes_for(seeds)[i])))
}

/// The tables are `jumlah` new ones: numbered from one in their order, each
/// with an id and a join code of its own, and without participant or files.
pub open spec fn newly_made(tables: Seq<MejaView>, jumlah: nat) -> bool {
    &&& tables.len() == jumlah
    &&& forall|i: int|
        0 <= i < jumlah ==> {
            let table = #[trigger] tables[i];
            &&& table == blank_table(table.id, i + 1, table.kode)
            &&& table.id.len() >= ID_LENGTH
            &&& is_kode(table.kode)
        }
    &&& distinct_ids(tables)
    &&& distinct_codes(tables)
}

/// None of the new tables has an id that one of the old tables had.
pub open spec fn no_id_of(made: Seq<MejaView>, old_tables: Seq<MejaView>) -> bool {
    forall|i: int| 0 <= i < made.len() ==> !has_id(old_tables, (#[trigger] made[i]).id)
}

/// Why a regeneration from the ids and seeds cannot take place, if it
/// cannot.
pub open spec fn regeneration_error(ids: Seq<String>, seeds: Seq<u32>) -> Option<RegenerateError> {
    if ids.len() != seeds.len() {
        Some(RegenerateError::CountMismatch)
    } else if ids.len() > KODE_SPACE {
        Some(RegenerateError::TooMany)
    } else if !distinct_texts(ids.map_values(|id: String| id@)) {
        Some(RegenerateError::DuplicateId)
    } else {
        None
    }
}

/// The numbers as integers.
pub open spec fn as_ints(numbers: Seq<u32>) -> Seq<int> {
    numbers.map_values(|c: u32| c as int)
}

/// Where every number of the space is used, at least as many numbers are in
/// use as the space has.
proof fn lemma_space_exhausted(used: Seq<int>, seed: int)
    requires
        0 <= seed,
        forall|u: int| 0 <= u < KODE_SPACE ==> used.contains(#[trigger] probe(seed, u)),
    ensures
        used.len() >= KODE_SPACE,
{
    let space = KODE_SPACE as int;
    let all = vstd::set_lib::set_int_range(0, space);
    vstd::set_lib::lemma_int_range(0, space);
    assert forall|r: int| all.contains(r) implies used.to_set().contains(r) by {
        let u = (r - seed % space + space) % space;
        assert(probe(seed, u) == r);
    }
    vstd::seq_lib::seq_to_set_is_finite(used);
    vstd::set_lib::lemma_len_subset(all, used.to_set());
    used.lemma_cardinality_of_set();
}

/// A search has one first gap at most.
proof fn lemma_first_gap_unique(used: Seq<int>, seed: int, a: int, b: int)
    requires
        first_gap_at(used, seed, a),
        first_gap_at(used, seed, b),
    ensures
        a == b,
{
}

/// Whether the number is among the used ones.
fn is_used(used: &Vec<u32>, code: u32) -> (r: bool)
    ensures
        r == as_ints(used@).contains(code as int),
{
    let mut i: usize = 0;
    while i < used.len()
        invariant
            i <= used.len(),
            forall|j: int| 0 <= j < i ==> used@[j] != code,
        decreases used.len() - i,
    {
        if used[i] == code {
            assert(as_ints(used@)[i as int] == code as int);
            return true;
        }
        i += 1;
    }
    assert forall|j: int| 0 <= j < as_ints(used@).len() implies as_ints(used@)[j] != code as int by {}
    false
}

/// Searches from the seed for a number that is not used yet.
fn pick_code(used: &Vec<u32>, seed: u32) -> (code: u32)
    requires
        used.len() < KODE_SPACE,
    ensures
        code < KODE_SPACE,
        code as int == next_code(as_ints(used@), seed as int),
        !as_ints(used@).contains(code as int),
{
    let ghost taken = as_ints(used@);
    let mut step: u32 = 0;
    while step < KODE_SPACE
        invariant
            step <= KODE_SPACE,
            taken == as_ints(used@),
            used.len() < KODE_SPACE,
            forall|u: int| 0 <= u < step ==> taken.contains(#[trigger] probe(seed as int, u)),
        decreases KODE_SPACE - step,
    {
        let candidate: u32 = ((seed as u64 + step as u64) % (KODE_SPACE as u64)) as u32;
        if !is_used(used, candidate) {
            proof {
                let chosen = choose|s: int| first_gap_at(taken, seed as int, s);
                lemma_first_gap_unique(taken, seed as int, step as int, chosen);
            }
            return candidate;
        }
        step += 1;
    }
    proof {
        lemma_space_exhausted(taken, seed as int);
    }
    0
}

/// The numbers given out for the first seeds stay when a seed is added.
proof fn lemma_codes_grow(seeds: Seq<u32>, i: int, code: int)
    requires
        0 <= i < seeds.len(),
        code == next_code(codes_for(seeds.take(i)), seeds[i] as int),
    ensures
        codes_for(seeds.take(i + 1)) == codes_for(seeds.take(i)).push(code),
{
    let upto = seeds.take(i + 1);
    assert(upto.drop_last() =~= seeds.take(i));
}

impl AppState {
    /// Replaces all the tables at once by new ones made from the ids and
    /// seeds: table `i` gets id `i`, the number `i + 1`, and the first join
    /// code from seed `i` upwards that no table before it has. Where the
    /// regeneration cannot take place, nothing changes.
    pub fn regenerate_from(&mut self, ids: &Vec<String>, seeds: &Vec<u32>) -> (r: Result<
        (),
        RegenerateError,
    >)
        ensures
            match r {
                Ok(_) => {
                    &&& regeneration_error(ids@, seeds@) is None
                    &&& final(self)@ == (AppStateView {
                        meja_list: regenerated(ids@, seeds@),
                        ..old(self)@
                    })
                    &&& distinct_ids(final(self)@.meja_list)
                    &&& distinct_codes(final(self)@.meja_list)
                    &&& forall|i: int|
                        0 <= i < ids@.len() ==> is_kode(
                            (#[trigger] final(self)@.meja_list[i]).kode,
                        )
                },
                Err(why) => regeneration_error(ids@, seeds@) == Some(why) && *final(self) == *old(
                    self,
                ),
            },
            r is Ok && old(self).timer.well_formed() ==> final(self).well_formed(),
    {
        if ids.len() != seeds.len() {
            return Err(RegenerateError::CountMismatch);
        }
        if ids.len() > KODE_SPACE as usize {
            return Err(RegenerateError::TooMany);
        }
        let ghost names = ids@.map_values(|id: String| id@);
        let mut tables: Vec<Meja> = Vec::new();
        let mut codes: Vec<u32> = Vec::new();
        let mut i: usize = 0;
        while i < ids.len()
            invariant
                i <= ids.len(),
                ids.len() == seeds.len(),
                ids.len() <= KODE_SPACE,
                names == ids@.map_values(|id: String| id@),
                codes.len() == i,
                tables.len() == i,
                as_ints(codes@) == codes_for(seeds@.take(i as int)),
                forall|j: int| 0 <= j < i ==> 0 <= #[trigger] codes@[j] < KODE_SPACE,
                forall|j: int, k: int|
                    0 <= j < k < i ==> #[trigger] codes@[j] != #[trigger] codes@[k],
                forall|j: int|
                    0 <= j < i ==> (#[trigger] tables@[j])@ == blank_table(
                        ids@[j]@,
                        j + 1,
                        kode_of(codes@[j] as int),
                    ),
                forall|j: int, k: int|
                    0 <= j < k < i ==> #[trigger] names[j] != #[trigger] names[k],
            decreases ids.len() - i,
        {
            if position_in(&tables, ids[i].as_str()).is_some() {
                proof {
                    let done = meja_views(tables@);
                    let at = choose|at: int|
                        0 <= at < done.len() && (#[trigger] done[at]).id == ids@[i as int]@;
                    assert(names[at] == names[i as int]);
                }
                return Err(RegenerateError::DuplicateId);
            }
            proof {
                assert forall|j: int| 0 <= j < i implies names[j] != names[i as int] by {
                    assert(meja_views(tables@)[j] == tables@[j]@);
                }
            }
            let ghost before = as_ints(codes@);
            let code = pick_code(&codes, seeds[i]);
            let table = Meja::new(ids[i].clone(), (i + 1) as u32, kode_text(code));
            proof {
                assert forall|j: int| 0 <= j < i implies codes@[j] != code by {
                    assert(before[j] == codes@[j] as int);
                }
                lemma_codes_grow(seeds@, i as int, code as int);
            }
            codes.push(code);
            tables.push(table);
            i += 1;
        }
        proof {
            assert(seeds@.take(i as int) =~= seeds@);
            let made = meja_views(tables@);
            assert(made =~= regenerated(ids@, seeds@));
            assert forall|j: int, k: int| 0 <= j < k < made.len() implies (#[trigger] made[j]).kode
                != (#[trigger] made[k]).kode by {
                if kode_of(codes@[j] as int) == kode_of(codes@[k] as int) {
                    lemma_kode_of_injective(codes@[j] as int, codes@[k] as int);
                }
            }
            assert forall|j: int, k: int| 0 <= j < k < made.len() implies (#[trigger] made[j]).id
                != (#[trigger] made[k]).id by {
                assert(names[j] != names[k]);
            }
            assert forall|j: int| 0 <= j < made.len() implies is_kode((#[trigger] made[j]).kode) by {}
        }
        self.meja_list = tables;
        Ok(())
    }

    /// Replaces all the tables at once by `jumlah` new ones, with ids and
    /// join codes drawn at random. There are then exactly `jumlah` tables
    /// numbered from one, each with a join code of its own and an id that
    /// neither another of them nor any table before had, and without
    /// participant or files; nothing of the old tables stays. Only more
    /// tables than there are join codes are refused, and then nothing
    /// changes.
    pub fn generate_meja(&mut self, jumlah: u32) -> (r: Result<(), RegenerateError>)
        ensures
            r is Ok <==> jumlah <= KODE_SPACE,
            match r {
                Ok(_) => {
                    &&& final(self)@ == (AppStateView {
                        meja_list: final(self)@.meja_list,
                        ..old(self)@
                    })
                    &&& newly_made(final(self)@.meja_list, jumlah as nat)
                    &&& no_id_of(final(self)@.meja_list, old(self)@.meja_list)
                },
                Err(why) => why == RegenerateError::TooMany && *final(self) == *old(self),
            },
            r is Ok && old(self).timer.well_formed() ==> final(self).well_formed(),
    {
        if jumlah > KODE_SPACE {
            return Err(RegenerateError::TooMany);
        }
        let mut ids: Vec<String> = Vec::new();
        let mut seeds: Vec<u32> = Vec::new();
        let mut longest: u128 = longest_id(&self.meja_list);
        let ghost before = self@.meja_list;
        let mut i: u32 = 0;
        while i < jumlah
            invariant
                i <= jumlah <= KODE_SPACE,
                ids.len() == i,
                seeds.len() == i,
                before == meja_views(self.meja_list@),
                ID_LENGTH <= longest <= usize::MAX + i,
                forall|j: int| 0 <= j < before.len() ==> (#[trigger] before[j]).id.len() <= longest,
                forall|j: int| 0 <= j < i ==> ID_LENGTH <= (#[trigger] ids@[j])@.len() <= longest,
                forall|j: int| 0 <= j < i ==> !has_id(before, (#[trigger] ids@[j])@),
                forall|j: int, k: int|
                    0 <= j < k < i ==> (#[trigger] ids@[j])@ != (#[trigger] ids@[k])@,
            decreases jumlah - i,
        {
            let (id, length) = distinct_id(&ids, &self.meja_list, longest);
            if length > longest {
                longest = length;
            }
            ids.push(id);
            seeds.push(random_below(KODE_SPACE));
            i += 1;
        }
        proof {
            let names = ids@.map_values(|id: String| id@);
            assert forall|j: int, k: int| 0 <= j < k < names.len() implies #[trigger] names[j]
                != #[trigger] names[k] by {
                assert(names[j] == ids@[j]@ && names[k] == ids@[k]@);
            }
        }
        let r = self.regenerate_from(&ids, &seeds);
        proof {
            let made = self@.meja_list;
            assert forall|j: int| 0 <= j < made.len() implies !has_id(
                before,
                (#[trigger] made[j]).id,
            ) by {
                assert(made[j].id == ids@[j]@);
            }
        }
        r
    }
}

/// The most characters that an id of the tables has, and those of a fresh
/// id at least.
fn longest_id(tables: &Vec<Meja>) -> (r: u128)
    ensures
        ID_LENGTH <= r <= usize::MAX,
        forall|j: int| 0 <= j < tables@.len() ==> (#[trigger] meja_views(tables@)[j]).id.len() <= r,
{
    let mut longest: usize = ID_LENGTH;
    let mut j: usize = 0;
    while j < tables.len()
        invariant
            j <= tables.len(),
            ID_LENGTH <= longest,
            forall|k: int| 0 <= k < j ==> (#[trigger] meja_views(tables@)[k]).id.len() <= longest,
        decreases tables.len() - j,
    {
        let length = tables[j].id.as_str().unicode_len();
        if length > longest {
            longest = length;
        }
        j += 1;
    }
    longest as u128
}

/// Whether one of the ids is the text.
fn id_taken(ids: &Vec<String>, id: &str) -> (r: bool)
    ensures
        r == exists|j: int| 0 <= j < ids@.len() && (#[trigger] ids@[j])@ == id@,
{
    let mut j: usize = 0;
    while j < ids.len()
        invariant
            j <= ids.len(),
            forall|k: int| 0 <= k < j ==> (#[trigger] ids@[k])@ != id@,
        decreases ids.len() - j,
    {
        if same_text(ids[j].as_str(), id) {
            return true;
        }
        j += 1;
    }
    false
}

/// Whether the text is one of the ids or the id of one of the tables.
fn in_use(ids: &Vec<String>, tables: &Vec<Meja>, id: &str) -> (r: bool)
    ensures
        r == ((exists|j: int| 0 <= j < ids@.len() && (#[trigger] ids@[j])@ == id@) || has_id(
            meja_views(tables@),
            id@,
        )),
{
    id_taken(ids, id) || position_in(tables, id).is_some()
}

/// Draws an id that is none of `ids` and the id of none of the tables, and
/// counts its characters. The id is a fresh one as it was drawn; should
/// chance have drawn one that is in use, it is made longer by a character
/// until it is not.
fn distinct_id(ids: &Vec<String>, tables: &Vec<Meja>, longest: u128) -> (r: (String, u128))
    requires
        ID_LENGTH <= longest < u128::MAX,
        forall|j: int| 0 <= j < ids@.len() ==> (#[trigger] ids@[j])@.len() <= longest,
        forall|j: int|
            0 <= j < tables@.len() ==> (#[trigger] meja_views(tables@)[j]).id.len() <= longest,
    ensures
        forall|j: int| 0 <= j < ids@.len() ==> (#[trigger] ids@[j])@ != r.0@,
        !has_id(meja_views(tables@), r.0@),
        r.0@.len() == r.1,
        ID_LENGTH <= r.1 <= longest + 1,
{
    let mut id = fresh_id();
    let mut length: u128 = 36;
    while in_use(ids, tables, id.as_str())
        invariant
            id@.len() == length,
            ID_LENGTH <= length <= longest + 1,
            longest < u128::MAX,
            forall|j: int| 0 <= j < ids@.len() ==> (#[trigger] ids@[j])@.len() <= longest,
            forall|j: int|
                0 <= j < tables@.len() ==> (#[trigger] meja_views(tables@)[j]).id.len()
                    <= longest,
        decreases longest + 1 - length,
    {
        push_char(&mut id, '0');
        length += 1;
    }
    (id, length)
}

} // verus!
