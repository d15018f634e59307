//! The city pool: a bounded collection of unique random city names, each
//! 1 to 32 ASCII-alphanumeric characters and therefore free of the row
//! delimiter `;`. Built by rejection sampling: a candidate that carries the
//! delimiter or repeats an accepted name is discarded and drawn again.

use vstd::prelude::*;
use vstd::string::StrSliceExecFns;
use crate::rng::GenRng;
use crate::value::push_char;
use crate::GenError;

verus! {

/// Shortest city name that may be generated (inclusive).
pub const MIN_CITY_NAME_LEN: usize = 1;

/// Longest city name that may be generated (inclusive).
pub const MAX_CITY_NAME_LEN: usize = 32;

/// How many candidates one pool slot may reject before the build fails;
/// a defensive bound on the otherwise unbounded rejection-sampling loop.
pub const MAX_NAME_ATTEMPTS: u32 = 10000;

/// The field delimiter of an output row, which no city name may contain.
pub const DELIMITER: char = ';';

/// True of the bytes that the alphanumeric sampler may return:
/// the ASCII codes of 0-9, A-Z and a-z.
pub open spec fn is_alnum_byte(b: u8) -> bool {
    (48 <= b <= 57) || (65 <= b <= 90) || (97 <= b <= 122)
}

/// True of the characters a city name may consist of: ASCII letters and digits.
pub open spec fn is_alnum_char(c: char) -> bool {
    ('0' <= c && c <= '9') || ('A' <= c && c <= 'Z') || ('a' <= c && c <= 'z')
}

/// A well-formed city name: 1 to 32 characters, all ASCII alphanumeric.
pub open spec fn valid_city_name(s: Seq<char>) -> bool {
    &&& MIN_CITY_NAME_LEN <= s.len() <= MAX_CITY_NAME_LEN
    &&& forall|i: int| 0 <= i < s.len() ==> is_alnum_char(#[trigger] s[i])
}

/// A well-formed city name never contains the delimiter: the alphanumeric
/// alphabet excludes it, so the delimiter check on candidates is purely
/// defensive.
pub proof fn lemma_valid_name_no_delimiter(s: Seq<char>)
    requires
        valid_city_name(s),
    ensures
        forall|i: int| 0 <= i < s.len() ==> #[trigger] s[i] != DELIMITER,
{
}

/// A well-formed pool: every entry is a valid city name and no two entries
/// are equal.
pub open spec fn pool_wf(pool: Seq<String>) -> bool {
    &&& forall|i: int| 0 <= i < pool.len() ==> valid_city_name(#[trigger] pool[i]@)
    &&& forall|i: int, j: int| 0 <= i < j < pool.len() ==> pool[i]@ != pool[j]@
}

/// A well-formed pool holds no duplicate entries and no entry containing
/// the delimiter.
pub proof fn lemma_pool_properties(pool: Seq<String>)
    requires
        pool_wf(pool),
    ensures
        forall|i: int, j: int| 0 <= i < j < pool.len() ==> pool[i]@ != pool[j]@,
        forall|i: int, k: int|
            0 <= i < pool.len() && 0 <= k < pool[i]@.len() ==> #[trigger] pool[i]@[k] != DELIMITER,
{
    assert forall|i: int, k: int|
        0 <= i < pool.len() && 0 <= k < pool[i]@.len() implies #[trigger] pool[i]@[k]
        != DELIMITER by {
        assert(valid_city_name(pool[i]@));
        assert(is_alnum_char(pool[i]@[k]));
    }
}

/// Draws one candidate city name: a length uniform in
/// [MIN_CITY_NAME_LEN, MAX_CITY_NAME_LEN], then that many characters, each
/// uniform over the ASCII alphanumeric alphabet.
pub fn get_city_name(rng: &mut GenRng) -> (r: String)
    ensures
        valid_city_name(r@),
{
    let len = rng.sample_usize_inclusive(MIN_CITY_NAME_LEN, MAX_CITY_NAME_LEN);
    let mut name = String::new();
    let mut i: usize = 0;
    while i < len
        invariant
            i <= len,
            MIN_CITY_NAME_LEN <= len <= MAX_CITY_NAME_LEN,
            name@.len() == i,
            forall|j: int| 0 <= j < i ==> is_alnum_char(#[trigger] name@[j]),
        decreases len - i,
    {
        let b = rng.sample_alnum_byte();
        push_char(&mut name, b as char);
        i += 1;
    }
    name
}

/// True iff the string contains the delimiter character.
pub fn contains_delimiter(s: &String) -> (r: bool)
    ensures
        r == exists|i: int| 0 <= i < s@.len() && s@[i] == DELIMITER,
{
    let n = s.as_str().unicode_len();
    let mut i: usize = 0;
    while i < n
        invariant
            i <= n,
            n == s@.len(),
            forall|j: int| 0 <= j < i ==> #[trigger] s@[j] != DELIMITER,
        decreases n - i,
    {
        if s.as_str().get_char(i) == DELIMITER {
            return true;
        }
        i += 1;
    }
    false
}

/// True iff the pool already holds a name with the same characters.
pub fn pool_contains(pool: &Vec<String>, name: &String) -> (r: bool)
    ensures
        r == exists|i: int| 0 <= i < pool@.len() && #[trigger] pool@[i]@ == name@,
{
    let mut i: usize = 0;
    while i < pool.len()
        invariant
            i <= pool@.len(),
            forall|j: int| 0 <= j < i ==> #[trigger] pool@[j]@ != name@,
        decreases pool@.len() - i,
    {
        if pool[i].eq(name) {
            return true;
        }
        i += 1;
    }
    false
}

/// Builds the pool: exactly `nof_cities` unique city names, rejecting any
/// candidate that carries the delimiter or duplicates an accepted name.
/// Fails with `PoolExhausted` only when one slot rejects
/// `MAX_NAME_ATTEMPTS` candidates in a row.
pub fn get_cities(nof_cities: u32, rng: &mut GenRng) -> (r: Result<Vec<String>, GenError>)
    ensures
        nof_cities == 0 ==> r is Ok,
        r matches Ok(pool) ==> pool@.len() == nof_cities && pool_wf(pool@),
        r is Err ==> r == Err::<Vec<String>, GenError>(GenError::PoolExhausted),
{
    let mut cities: Vec<String> = Vec::new();
    while cities.len() < nof_cities as usize
        invariant
            cities@.len() <= nof_cities,
            pool_wf(cities@),
        decreases nof_cities - cities@.len(),
    {
        let ghost len0 = cities@.len();
        let mut attempts: u32 = 0;
        let mut added = false;
        while !added && attempts < MAX_NAME_ATTEMPTS
            invariant
                pool_wf(cities@),
                len0 < nof_cities,
                cities@.len() == len0 + if added { 1int } else { 0int },
            decreases MAX_NAME_ATTEMPTS - attempts,
        {
            let name = get_city_name(rng);
            attempts += 1;
            if contains_delimiter(&name) {
                continue;
            }
            if !pool_contains(&cities, &name) {
                cities.push(name);
                added = true;
            }
        }
        if !added {
            return Err(GenError::PoolExhausted);
        }
    }
    Ok(cities)
}

} // verus!
