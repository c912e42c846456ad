//! The identity service: a stable, content-derived 64-bit key for steps and
//! scenarios. Two structurally equal entities, even when built by separate
//! parses of the same source text, receive the same key, which lets outcomes
//! observed against one parse be looked up against the other. The hash walks
//! the entity's semantically meaningful fields with an FNV-style mixing step;
//! it aims at determinism and low collision probability, not at cryptographic
//! strength.

use vstd::prelude::*;
use crate::doc_model::{StepDoc, StepDocView};

verus! {

/// Multiplier of the 64-bit FNV-1a hash.
pub const HASH_PRIME: u64 = 0x100000001b3;

/// Offset basis of the 64-bit FNV-1a hash.
pub const HASH_BASIS: u64 = 0xcbf29ce484222325;

/// Token fed between cells of a table row; above every Unicode scalar value,
/// so no character collides with it.
pub const CELL_MARK: u64 = 0x110000;

/// Token fed between rows of a table.
pub const ROW_MARK: u64 = 0x110001;

/// Token fed between the fields of an entity.
pub const FIELD_MARK: u64 = 0x110002;

/// One mixing step: fold the token `t` into the running hash `h`.
pub open spec fn spec_mix(h: u64, t: u64) -> u64 {
    vstd::wrapping::u64_specs::wrapping_mul(h ^ t, HASH_PRIME)
}

/// Executable mixing step.
pub fn mix(h: u64, t: u64) -> (r: u64)
    ensures
        r == spec_mix(h, t),
{
    (h ^ t).wrapping_mul(HASH_PRIME)
}

/// Folds every character of `s` into the hash, left to right.
pub open spec fn spec_hash_chars(h0: u64, s: Seq<char>) -> u64
    decreases s.len(),
{
    if s.len() == 0 {
        h0
    } else {
        spec_hash_chars(spec_mix(h0, s[0] as u64), s.drop_first())
    }
}

/// Executable character fold.
pub fn hash_chars(h0: u64, s: &str) -> (r: u64)
    ensures
        r == spec_hash_chars(h0, s@),
{
    proof {
        assert(s@.skip(0) =~= s@);
    }
    let n = s.unicode_len();
    let mut h = h0;
    let mut i: usize = 0;
    while i < n
        invariant
            n == s@.len(),
            i <= n,
            spec_hash_chars(h, s@.skip(i as int)) == spec_hash_chars(h0, s@),
        decreases n - i,
    {
        let c = s.get_char(i);
        proof {
            assert(s@.skip(i as int)[0] == s@[i as int]);
            assert(s@.skip(i as int).drop_first() =~= s@.skip(i as int + 1));
        }
        h = mix(h, c as u64);
        i = i + 1;
    }
    proof {
        assert(s@.skip(n as int) =~= Seq::<char>::empty());
    }
    h
}

/// Folds every cell of a table row into the hash, each closed by
/// [`CELL_MARK`].
pub open spec fn spec_hash_row(h0: u64, row: Seq<Seq<char>>) -> u64
    decreases row.len(),
{
    if row.len() == 0 {
        h0
    } else {
        spec_hash_row(spec_mix(spec_hash_chars(h0, row[0]), CELL_MARK), row.drop_first())
    }
}

/// Executable row fold.
pub fn hash_row(h0: u64, row: &Vec<String>) -> (r: u64)
    ensures
        r == spec_hash_row(h0, row.deep_view()),
{
    proof {
        assert(row.deep_view().skip(0) =~= row.deep_view());
    }
    let n = row.len();
    let mut h = h0;
    let mut i: usize = 0;
    while i < n
        invariant
            n == row.len(),
            i <= n,
            spec_hash_row(h, row.deep_view().skip(i as int)) == spec_hash_row(
                h0,
                row.deep_view(),
            ),
        decreases n - i,
    {
        proof {
            assert(row.deep_view().skip(i as int)[0] == row@[i as int]@);
            assert(row.deep_view().skip(i as int).drop_first() =~= row.deep_view().skip(
                i as int + 1,
            ));
        }
        h = mix(hash_chars(h, row[i].as_str()), CELL_MARK);
        i = i + 1;
    }
    proof {
        assert(row.deep_view().skip(n as int) =~= Seq::<Seq<char>>::empty());
    }
    h
}

/// Folds every row of a table into the hash, each closed by [`ROW_MARK`].
pub open spec fn spec_hash_table(h0: u64, t: Seq<Seq<Seq<char>>>) -> u64
    decreases t.len(),
{
    if t.len() == 0 {
        h0
    } else {
        spec_hash_table(spec_mix(spec_hash_row(h0, t[0]), ROW_MARK), t.drop_first())
    }
}

/// Executable table fold.
pub fn hash_table(h0: u64, t: &Vec<Vec<String>>) -> (r: u64)
    ensures
        r == spec_hash_table(h0, t.deep_view()),
{
    proof {
        assert(t.deep_view().skip(0) =~= t.deep_view());
    }
    let n = t.len();
    let mut h = h0;
    let mut i: usize = 0;
    while i < n
        invariant
            n == t.len(),
            i <= n,
            spec_hash_table(h, t.deep_view().skip(i as int)) == spec_hash_table(
                h0,
                t.deep_view(),
            ),
        decreases n - i,
    {
        proof {
            assert(t.deep_view().skip(i as int)[0] == t@[i as int].deep_view());
            assert(t.deep_view().skip(i as int).drop_first() =~= t.deep_view().skip(i as int + 1));
        }
        h = mix(hash_row(h, &t[i]), ROW_MARK);
        i = i + 1;
    }
    proof {
        assert(t.deep_view().skip(n as int) =~= Seq::<Seq<Seq<char>>>::empty());
    }
    h
}

/// The identity key of a step: a hash over keyword, text and table — the
/// structural content by which the live and the template parse must agree.
pub open spec fn spec_step_id(s: StepDocView) -> u64 {
    let h1 = spec_mix(spec_hash_chars(HASH_BASIS, s.keyword), FIELD_MARK);
    let h2 = spec_mix(spec_hash_chars(h1, s.text), FIELD_MARK);
    match s.table {
        Option::None => spec_mix(h2, 0),
        Option::Some(t) => spec_hash_table(spec_mix(h2, 1), t),
    }
}

/// Executable step identity.
pub fn step_id(s: &StepDoc) -> (r: u64)
    ensures
        r == spec_step_id(s@),
{
    let h1 = mix(hash_chars(HASH_BASIS, s.keyword.as_str()), FIELD_MARK);
    let h2 = mix(hash_chars(h1, s.text.as_str()), FIELD_MARK);
    match &s.table {
        Option::None => mix(h2, 0),
        Option::Some(t) => hash_table(mix(h2, 1), t),
    }
}

/// The identity key of a scenario: a hash over its name and source span,
/// the stable join key between an expanded scenario and its owning outline
/// template.
pub open spec fn spec_scenario_id(name: Seq<char>, span_start: nat, span_end: nat) -> u64 {
    let h1 = spec_mix(spec_hash_chars(HASH_BASIS, name), FIELD_MARK);
    spec_mix(spec_mix(h1, span_start as u64), span_end as u64)
}

/// Executable scenario identity.
pub fn scenario_id(name: &str, span_start: usize, span_end: usize) -> (r: u64)
    ensures
        r == spec_scenario_id(name@, span_start as nat, span_end as nat),
{
    let h1 = mix(hash_chars(HASH_BASIS, name), FIELD_MARK);
    mix(mix(h1, span_start as u64), span_end as u64)
}

/// Identity stability: structurally equal steps receive equal identity keys,
/// whichever parse produced them.
pub proof fn lemma_step_identity_stable(a: StepDocView, b: StepDocView)
    requires
        a == b,
    ensures
        spec_step_id(a) == spec_step_id(b),
{
}

} // verus!
