//! Row production: each row pairs one city, sampled uniformly with
//! replacement from the frozen pool, with one value sampled uniformly from
//! [MIN_VALUE, MAX_VALUE] tenths, rendered as `<city>;<value>`.

use vstd::prelude::*;
use vstd::string::StringExecFns;
use crate::city::{is_alnum_char, pool_wf, valid_city_name, DELIMITER};
use crate::rng::GenRng;
use crate::value::{
    format_value, lemma_value_pattern, matches_value_pattern, push_char, spec_format_value,
    MAX_VALUE, MIN_VALUE,
};
use crate::GenError;

verus! {

/// The text of one row: the city, the delimiter, then the rendered value.
pub open spec fn spec_row(city: Seq<char>, v: int) -> Seq<char> {
    city + seq![DELIMITER] + spec_format_value(v)
}

/// A row that the streamer may emit over `pool`: some pool entry paired
/// with some in-range value.
pub open spec fn row_wf(s: Seq<char>, pool: Seq<String>) -> bool {
    exists|i: int, v: int|
        0 <= i < pool.len() && MIN_VALUE <= v <= MAX_VALUE && s == spec_row(pool[i]@, v)
}

/// Row `s` splits at its first delimiter into pool entry `i` and a value
/// text of the shape `-?\d+\.\d`.
pub open spec fn row_split_at(s: Seq<char>, pool: Seq<String>, i: int) -> bool {
    &&& 0 <= i < pool.len()
    &&& pool[i]@.len() < s.len()
    &&& s.take(pool[i]@.len() as int) == pool[i]@
    &&& s[pool[i]@.len() as int] == DELIMITER
    &&& (forall|j: int| 0 <= j < pool[i]@.len() ==> s[j] != DELIMITER)
    &&& matches_value_pattern(s.skip(pool[i]@.len() as int + 1))
}

/// Every row the streamer may emit splits at its first delimiter into a
/// city drawn from the pool, free of the delimiter, and a value text of the
/// shape `-?\d+\.\d`.
pub proof fn lemma_row_shape(s: Seq<char>, pool: Seq<String>)
    requires
        pool_wf(pool),
        row_wf(s, pool),
    ensures
        exists|i: int| #[trigger] row_split_at(s, pool, i),
{
    let (i, v) = choose|i: int, v: int|
        0 <= i < pool.len() && MIN_VALUE <= v <= MAX_VALUE && s == spec_row(pool[i]@, v);
    let city = pool[i]@;
    lemma_value_pattern(v);
    assert(s.take(city.len() as int) =~= city);
    assert(s.skip(city.len() as int + 1) =~= spec_format_value(v));
    assert(valid_city_name(city));
    assert forall|j: int| 0 <= j < city.len() implies s[j] != DELIMITER by {
        assert(s[j] == city[j]);
        assert(is_alnum_char(city[j]));
    }
    assert(row_split_at(s, pool, i));
}

/// Renders one row as `<city>;<value>`.
pub fn format_row(city: &String, v: i16) -> (r: String)
    requires
        MIN_VALUE <= v <= MAX_VALUE,
    ensures
        r@ == spec_row(city@, v as int),
{
    let mut s = city.clone();
    push_char(&mut s, DELIMITER);
    let val = format_value(v);
    s.append(val.as_str());
    proof {
        assert(s@ =~= spec_row(city@, v as int));
    }
    s
}

/// The row streamer: a frozen, non-empty city pool and the count of rows
/// still owed.
pub struct RowGen {
    /// The frozen pool rows are sampled from.
    pub pool: Vec<String>,
    /// How many rows remain to be produced.
    pub remaining: u32,
}

impl RowGen {
    /// A usable streamer: at least one city to sample from.
    pub open spec fn wf(self) -> bool {
        self.pool@.len() > 0
    }

    /// Freezes the pool for streaming `rows` rows. An empty pool is the
    /// fatal `EmptyPool` error: there is nothing to sample from.
    pub fn new(pool: Vec<String>, rows: u32) -> (r: Result<RowGen, GenError>)
        ensures
            pool@.len() > 0 ==> r is Ok,
            pool@.len() == 0 <==> r == Err::<RowGen, GenError>(GenError::EmptyPool),
            r matches Ok(g) ==> g.wf() && g.pool == pool && g.remaining == rows,
    {
        if pool.len() == 0 {
            Err(GenError::EmptyPool)
        } else {
            Ok(RowGen { pool, remaining: rows })
        }
    }

    /// Produces the next row, or `None` once the requested count has been
    /// reached: exactly one row per unit of `remaining`.
    pub fn next_row(&mut self, rng: &mut GenRng) -> (r: Option<String>)
        requires
            old(self).wf(),
        ensures
            final(self).wf(),
            final(self).pool == old(self).pool,
            r is Some <==> old(self).remaining > 0,
            old(self).remaining == 0 ==> final(self).remaining == 0,
            old(self).remaining > 0 ==> final(self).remaining == old(self).remaining - 1,
            r matches Some(row) ==> row_wf(row@, old(self).pool@),
    {
        if self.remaining == 0 {
            return None;
        }
        self.remaining = self.remaining - 1;
        let idx = rng.sample_usize_range(0, self.pool.len());
        let v = rng.sample_i16_inclusive(MIN_VALUE, MAX_VALUE);
        let row = format_row(&self.pool[idx], v);
        proof {
            let i = idx as int;
            let vv = v as int;
            assert(0 <= i < old(self).pool@.len() && MIN_VALUE <= vv <= MAX_VALUE
                && row@ == spec_row(old(self).pool@[i]@, vv));
        }
        Some(row)
    }

    /// Produces every remaining row at once: when no write is interrupted,
    /// the number of emitted rows equals the number requested.
    pub fn generate_rows(&mut self, rng: &mut GenRng) -> (r: Vec<String>)
        requires
            old(self).wf(),
        ensures
            final(self).wf(),
            final(self).pool == old(self).pool,
            final(self).remaining == 0,
            r@.len() == old(self).remaining,
            forall|i: int| 0 <= i < r@.len() ==> row_wf(#[trigger] r@[i]@, old(self).pool@),
    {
        let mut out: Vec<String> = Vec::new();
        let ghost total = old(self).remaining as int;
        while self.remaining > 0
            invariant
                self.wf(),
                self.pool == old(self).pool,
                out@.len() + self.remaining == total,
                forall|i: int| 0 <= i < out@.len() ==> row_wf(#[trigger] out@[i]@, old(self).pool@),
            decreases self.remaining,
        {
            match self.next_row(rng) {
                Some(row) => out.push(row),
                None => {},
            }
        }
        out
    }
}

} // verus!
