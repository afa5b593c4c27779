//! Calls into the Argon2 crate: hashing and checking passwords.

use argon2::password_hash::{PasswordHash, PasswordHasher, PasswordVerifier, SaltString};
use argon2::{Algorithm, Argon2, Params, Version};
use vstd::prelude::*;

verus! {

/// The cost of an Argon2id hash: memory in 1 KiB blocks, passes, lanes,
/// and the output length in bytes (32 when none is given).
#[derive(Debug, Clone, Copy, PartialEq, Eq)]
pub struct Argon2Cost {
    pub memory: u32,
    pub iterations: u32,
    pub parallelism: u32,
    pub output_len: Option<usize>,
}

/// A parameter value of a PHC string: a decimal, or something else.
#[derive(Debug, Clone, Copy, PartialEq, Eq)]
pub enum PhcValue {
    Decimal(u32),
    NotDecimal,
}

/// The parameters that `PasswordHash::new` reads from `hash`, in their
/// order (a name may occur more than once), or `None` when `hash` is not a
/// well-formed PHC string.
pub uninterp spec fn phc_entries(hash: Seq<char>) -> Option<Seq<(Seq<char>, PhcValue)>>;

/// Whether Argon2 (`Argon2::default().verify_password`) accepts
/// `password` against the well-formed PHC string `hash`.
pub uninterp spec fn argon2_accepts(password: Seq<u8>, hash: Seq<char>) -> bool;

/// Whether `hash` is a well-formed PHC string.
pub open spec fn phc_parses(hash: Seq<char>) -> bool {
    phc_entries(hash) is Some
}

/// The value of the last entry named `name`: Argon2 applies the entries
/// in order, so the last one is the one in force.
pub open spec fn last_value(entries: Seq<(Seq<char>, PhcValue)>, name: Seq<char>) -> Option<PhcValue>
    decreases entries.len(),
{
    if entries.len() == 0 {
        None
    } else if entries.last().0 == name {
        Some(entries.last().1)
    } else {
        last_value(entries.drop_last(), name)
    }
}

/// The value in force under `name` in a well-formed PHC string.
pub open spec fn phc_value(hash: Seq<char>, name: Seq<char>) -> Option<PhcValue> {
    match phc_entries(hash) {
        Some(es) => last_value(es, name),
        None => None,
    }
}

/// The entries as plain values.
pub open spec fn entries_view(v: Seq<(String, PhcValue)>) -> Seq<(Seq<char>, PhcValue)> {
    v.map_values(|e: (String, PhcValue)| (e.0@, e.1))
}

/// When `Params::new(m_cost, t_cost, p_cost, output_len)` succeeds: at
/// least 8 memory blocks and 8 per lane, at least one pass, between 1 and
/// 2^24 - 1 lanes, and an output of 4 to 2^32 - 1 bytes when one is given.
pub open spec fn argon2_params_valid(m_cost: u32, t_cost: u32, p_cost: u32, output_len: Option<usize>) -> bool {
    &&& m_cost >= 8
    &&& m_cost >= p_cost * 8
    &&& t_cost >= 1
    &&& 1 <= p_cost <= 0xFF_FFFF
    &&& (output_len matches Some(len) ==> 4 <= len <= 0xFFFF_FFFF)
}

/// The output length a cost asks for: 32 bytes when none is given.
pub open spec fn output_len_of(cost: Argon2Cost) -> int {
    match cost.output_len {
        Some(len) => len as int,
        None => 32,
    }
}

/// When hashing `password` with `cost` and a fresh 16-byte salt
/// succeeds: the parameters are valid, the output fits a PHC string (10 to
/// 64 bytes), and the password has at most 2^32 - 1 bytes.
pub open spec fn argon2_hash_succeeds(cost: Argon2Cost, password: Seq<u8>) -> bool {
    &&& argon2_params_valid(cost.memory, cost.iterations, cost.parallelism, cost.output_len)
    &&& 10 <= output_len_of(cost) <= 64
    &&& password.len() <= 0xFFFF_FFFF
}

/// Whether a lane count in force, with the memory cost in force, makes
/// Argon2 overflow when it reads the parameters back: it computes `p * 8`
/// in 32 bits once the memory cost is at least 8 (the default memory cost
/// applies when none is recorded).
pub open spec fn costs_overflow(p: Option<PhcValue>, m: Option<PhcValue>) -> bool {
    &&& p matches Some(PhcValue::Decimal(pv)) && pv > 0x1FFF_FFFF
    &&& match m {
        Some(PhcValue::Decimal(mv)) => mv >= 8,
        None => true,
        Some(PhcValue::NotDecimal) => false,
    }
}

/// A stored hash whose lane count in force makes Argon2 overflow.
pub open spec fn lanes_overflow(hash: Seq<char>) -> bool {
    phc_parses(hash) && costs_overflow(phc_value(hash, "p"@), phc_value(hash, "m"@))
}

/// The outcome of checking a password against a stored hash.
#[derive(Debug, Clone, Copy, PartialEq, Eq)]
pub enum PasswordCheck {
    Malformed,
    Mismatch,
    Match,
}

/// The outcome named by the two predicates above.
pub open spec fn password_outcome(password: Seq<u8>, hash: Seq<char>) -> PasswordCheck {
    if !phc_parses(hash) {
        PasswordCheck::Malformed
    } else if argon2_accepts(password, hash) {
        PasswordCheck::Match
    } else {
        PasswordCheck::Mismatch
    }
}

/// `Params::default()`, read back as a cost. Claimed: the crate's
/// defaults, 19 MiB, two passes, one lane and no output length (so 32).
#[verifier::external_body]
pub(crate) fn default_cost() -> (r: Argon2Cost)
    ensures
        r == (Argon2Cost { memory: 19456, iterations: 2, parallelism: 1, output_len: None }),
{
    let p = Params::default();
    Argon2Cost { memory: p.m_cost(), iterations: p.t_cost(), parallelism: p.p_cost(), output_len: p.output_len() }
}

/// `Params::new` with the cost, then
/// `Argon2::new(Argon2id, V0x13, ..).hash_password(password, salt)` with a
/// salt from `SaltString::generate(&mut rand::thread_rng())` (16 random
/// bytes), as a PHC string; an error is handed back as its message.
/// Claimed, from the crate's checks: it succeeds exactly when
/// `argon2_hash_succeeds` holds; a hash that comes back is well formed,
/// accepts `password`, and records the memory cost and lane count. The
/// salt, hence the hash, is random. `Params::new` multiplies the lane count
/// by 8, so `requires` leaves out the lane counts for which that overflows.
/// Memory and time grow with the cost; that the machine has them is not
/// claimed.
#[verifier::external_body]
pub(crate) fn argon2id_hash(cost: &Argon2Cost, password: &[u8]) -> (r: Result<String, String>)
    requires
        cost.memory < 8 || cost.parallelism <= 0x1FFF_FFFF,
    ensures
        r is Ok <==> argon2_hash_succeeds(*cost, password@),
        r matches Ok(h) ==> {
            &&& phc_parses(h@)
            &&& argon2_accepts(password@, h@)
            &&& phc_value(h@, "m"@) == Some(PhcValue::Decimal(cost.memory))
            &&& phc_value(h@, "p"@) == Some(PhcValue::Decimal(cost.parallelism))
        },
{
    let salt = SaltString::generate(&mut rand::thread_rng());
    let params = Params::new(cost.memory, cost.iterations, cost.parallelism, cost.output_len)
        .map_err(|e| e.to_string())?;
    Argon2::new(Algorithm::Argon2id, Version::V0x13, params)
        .hash_password(password, &salt)
        .map(|h| h.to_string())
        .map_err(|e| e.to_string())
}

/// `PasswordHash::new(hash)`, then every entry of `params.iter()`,
/// each value read with `Value::decimal`. Claimed: the entries named by
/// `phc_entries`, and `None` exactly when the string is not well formed.
#[verifier::external_body]
pub(crate) fn phc_param_list(hash: &str) -> (r: Option<Vec<(String, PhcValue)>>)
    ensures
        match r {
            Some(v) => phc_entries(hash@) == Some(entries_view(v@)),
            None => phc_entries(hash@) is None,
        },
{
    PasswordHash::new(hash).ok().map(|h| {
        h.params.iter().map(|(n, v)| (n.as_str().to_string(), match v.decimal() {
            Ok(d) => PhcValue::Decimal(d),
            Err(_) => PhcValue::NotDecimal,
        })).collect()
    })
}

/// `PasswordHash::new(hash)` and then
/// `Argon2::default().verify_password(password, ..)`. Claimed: the
/// outcome named by `password_outcome`. Reading the parameters back
/// computes `p * 8` in 32 bits, so `requires` leaves out the hashes whose
/// lane count overflows it. Argon2 takes memory and time in proportion to
/// the costs the hash records; that the machine has them is not claimed.
#[verifier::external_body]
pub(crate) fn check_password(password: &[u8], hash: &str) -> (r: PasswordCheck)
    requires
        !lanes_overflow(hash@),
    ensures
        r == password_outcome(password@, hash@),
{
    match PasswordHash::new(hash) {
        Err(_) => PasswordCheck::Malformed,
        Ok(parsed) => match Argon2::default().verify_password(password, &parsed) {
            Ok(()) => PasswordCheck::Match,
            Err(_) => PasswordCheck::Mismatch,
        },
    }
}

/// The value of the last entry named `name`.
fn value_in_force(entries: &Vec<(String, PhcValue)>, name: &str) -> (r: Option<PhcValue>)
    ensures
        r == last_value(entries_view(entries@), name@),
{
    let mut found: Option<PhcValue> = None;
    let n = entries.len();
    for i in 0..n
        invariant
            n == entries.len(),
            found == last_value(entries_view(entries@).take(i as int), name@),
    {
        let ghost es = entries_view(entries@);
        proof {
            assert(es.take(i + 1).drop_last() =~= es.take(i as int));
            assert(es.take(i + 1).last() == es[i as int]);
        }
        if crate::text::str_eq(entries[i].0.as_str(), name) {
            found = Some(entries[i].1);
        }
    }
    assert(entries_view(entries@).take(n as int) =~= entries_view(entries@));
    found
}

/// Whether the costs in force overflow, as `costs_overflow` says.
fn overflowing_costs(p: Option<PhcValue>, m: Option<PhcValue>) -> (r: bool)
    ensures
        r == costs_overflow(p, m),
{
    match p {
        Some(PhcValue::Decimal(pv)) => pv > 0x1FFF_FFFF && match m {
            Some(PhcValue::Decimal(mv)) => mv >= 8,
            None => true,
            Some(PhcValue::NotDecimal) => false,
        },
        _ => false,
    }
}

/// Whether a stored hash's lane count in force would overflow when read
/// back, as `lanes_overflow` says.
pub fn hash_lanes_overflow(hash: &str) -> (r: bool)
    ensures
        r == lanes_overflow(hash@),
{
    match phc_param_list(hash) {
        None => false,
        Some(entries) => overflowing_costs(value_in_force(&entries, "p"), value_in_force(&entries, "m")),
    }
}

/// Checks `password` against a stored hash: an unreadable hash is
/// malformed; a hash whose lane count in force overflows cannot accept any
/// password (Argon2 allows at most 2^24 - 1 lanes), so it is a mismatch
/// without asking Argon2; otherwise Argon2 decides.
pub fn verify_stored_password(password: &[u8], hash: &str) -> (r: PasswordCheck)
    ensures
        r == password_step(password@, hash@),
{
    let entries = match phc_param_list(hash) {
        None => return PasswordCheck::Malformed,
        Some(e) => e,
    };
    if overflowing_costs(value_in_force(&entries, "p"), value_in_force(&entries, "m")) {
        return PasswordCheck::Mismatch;
    }
    check_password(password, hash)
}

/// The outcome of `verify_stored_password`.
pub open spec fn password_step(password: Seq<u8>, hash: Seq<char>) -> PasswordCheck {
    if !phc_parses(hash) {
        PasswordCheck::Malformed
    } else if lanes_overflow(hash) {
        PasswordCheck::Mismatch
    } else {
        password_outcome(password, hash)
    }
}

/// A hash that Argon2 made for `password`, with a lane count it accepts,
/// is one against which the password checks out.
pub proof fn law_made_hash_checks_out(password: Seq<u8>, hash: Seq<char>, lanes: u32)
    requires
        phc_parses(hash),
        argon2_accepts(password, hash),
        phc_value(hash, "p"@) == Some(PhcValue::Decimal(lanes)),
        lanes <= 0xFF_FFFF,
    ensures
        password_step(password, hash) == PasswordCheck::Match,
{
}

} // verus!
