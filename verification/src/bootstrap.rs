use vstd::prelude::*;

verus! {

/// Content of the destination file after one seeding pass, given the content
/// found at the destination and at the bundled seed (`None` meaning the file
/// is absent): an existing destination is kept as it is, otherwise the seed
/// is copied when present, and nothing happens when both are absent.
pub open spec fn spec_seed(dest: Option<Seq<u8>>, source: Option<Seq<u8>>) -> Option<Seq<u8>> {
    match dest {
        Some(d) => Some(d),
        None => source,
    }
}

/// Decides the seeding step: whether the bundled seed file is to be copied
/// into the writable data directory. The copy happens exactly when the
/// destination is absent and the seed exists; an existing destination is
/// never overwritten, and a missing seed is silently skipped.
pub fn seed_default_data(dest_exists: bool, source_exists: bool) -> (copy: bool)
    ensures
        copy == (!dest_exists && source_exists),
{
    !dest_exists && source_exists
}

/// Law: seeding is idempotent — a second pass never alters the destination —
/// and an existing destination file is never altered at all. The copy
/// decision agrees with the content model: copying is asked for exactly when
/// the pass would change the destination.
pub proof fn lemma_seed_idempotent(dest: Option<Seq<u8>>, source: Option<Seq<u8>>)
    ensures
        spec_seed(spec_seed(dest, source), source) == spec_seed(dest, source),
        dest is Some ==> spec_seed(dest, source) == dest,
        (!(dest is Some) && source is Some) == (spec_seed(dest, source) !== dest),
{
}

} // verus!
