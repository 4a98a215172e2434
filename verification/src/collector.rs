//! Planning for the file collector: which discovered source files go
//! where in the staging tree. Discovery and the byte copies themselves are
//! operating-system work done by the driver; everything decidable from the
//! paths alone is decided here.

use vstd::prelude::*;
use vstd::string::*;

use crate::error::Error;
use crate::paths::{
    has_rs_extension, path_join, spec_has_path_prefix, spec_has_rs_extension, spec_path_join,
    spec_stripped, strip_path_prefix,
};

verus! {

/// One batch of the collector's work: walk `from`, and copy every Rust
/// source file found into `to`, stripping `prefix` from its path.
pub struct CopyPlan {
    /// The root the walk starts from.
    pub from: String,
    /// The staging directory the files land in.
    pub to: String,
    /// The leading path to strip from each discovered file.
    pub prefix: String,
}

/// Where a discovered file lands: the staging root joined with the file's
/// identity relative to the stripped prefix.
pub open spec fn spec_dest(path: Seq<char>, to: Seq<char>, prefix: Seq<char>) -> Seq<char> {
    spec_path_join(to, spec_stripped(path, prefix))
}

/// Computes the destination of one discovered file, or fails with a
/// path-relation error when the file does not lie under its declared root.
pub fn dest_for(path: &str, to: &str, prefix: &str) -> (r: Result<String, Error>)
    ensures
        match r {
            Ok(d) => spec_has_path_prefix(path@, prefix@) && d@ == spec_dest(path@, to@, prefix@),
            Err(e) => !spec_has_path_prefix(path@, prefix@) && (match e {
                Error::PathPrefix(p) => p@ == path@,
                _ => false,
            }),
        },
{
    match strip_path_prefix(path, prefix) {
        Some(rest) => Ok(path_join(to, rest.as_str())),
        None => Err(Error::PathPrefix(path.to_owned())),
    }
}

/// Turns one discovery into a copy plan: the retained files are exactly
/// those with the Rust source extension, each mapped to its destination,
/// in discovery order. Fails with the first file that does not lie under
/// the declared root.
pub fn copy_destinations(files: &Vec<String>, to: &str, prefix: &str) -> (r: Result<
    Vec<(String, String)>,
    Error,
>)
    ensures
        match r {
            Ok(pairs) => pairs@.len() == spec_retained(crate::text::string_views(files@)).len()
                && (forall|i: int|
                0 <= i < pairs@.len() ==> (#[trigger] pairs@[i]).0@ == spec_retained(
                    crate::text::string_views(files@),
                )[i] && pairs@[i].1@ == spec_dest(
                    spec_retained(crate::text::string_views(files@))[i],
                    to@,
                    prefix@,
                )) && (forall|k: int|
                0 <= k < files@.len() && spec_has_rs_extension(#[trigger] files@[k]@)
                    ==> spec_has_path_prefix(files@[k]@, prefix@)),
            Err(e) => exists|k: int|
                0 <= k < files@.len() && spec_has_rs_extension(#[trigger] files@[k]@)
                    && !spec_has_path_prefix(files@[k]@, prefix@) && (match e {
                    Error::PathPrefix(p) => p@ == files@[k]@,
                    _ => false,
                }),
        },
{
    let mut pairs: Vec<(String, String)> = Vec::new();
    let mut i: usize = 0;
    while i < files.len()
        invariant
            0 <= i <= files.len(),
            pairs@.len() == spec_retained(
                crate::text::string_views(files@.take(i as int)),
            ).len(),
            forall|j: int|
                0 <= j < pairs@.len() ==> (#[trigger] pairs@[j]).0@ == spec_retained(
                    crate::text::string_views(files@.take(i as int)),
                )[j] && pairs@[j].1@ == spec_dest(
                    spec_retained(crate::text::string_views(files@.take(i as int)))[j],
                    to@,
                    prefix@,
                ),
            forall|k: int|
                0 <= k < i && spec_has_rs_extension(#[trigger] files@[k]@)
                    ==> spec_has_path_prefix(files@[k]@, prefix@),
        decreases files.len() - i,
    {
        let file = &files[i];
        proof {
            assert(crate::text::string_views(files@.take(i + 1)).drop_last()
                =~= crate::text::string_views(files@.take(i as int)));
            assert(crate::text::string_views(files@.take(i + 1)).last() == files@[i as int]@);
        }
        if has_rs_extension(file.as_str()) {
            match dest_for(file.as_str(), to, prefix) {
                Ok(dest) => {
                    pairs.push((file.clone(), dest));
                },
                Err(e) => {
                    return Err(e);
                },
            }
        }
        i = i + 1;
    }
    proof {
        assert(files@.take(files@.len() as int) =~= files@);
    }
    Ok(pairs)
}

/// The discovered paths that name Rust source files, in discovery order.
pub open spec fn spec_retained(files: Seq<Seq<char>>) -> Seq<Seq<char>>
    decreases files.len(),
{
    if files.len() == 0 {
        Seq::empty()
    } else {
        spec_retained(files.drop_last()) + (if spec_has_rs_extension(files.last()) {
            seq![files.last()]
        } else {
            Seq::empty()
        })
    }
}

/// Everything the collector retains names a Rust source file.
pub proof fn lemma_retained_are_sources(files: Seq<Seq<char>>)
    ensures
        forall|i: int|
            0 <= i < spec_retained(files).len() ==> spec_has_rs_extension(
                #[trigger] spec_retained(files)[i],
            ),
    decreases files.len(),
{
    if files.len() > 0 {
        lemma_retained_are_sources(files.drop_last());
        let prefix_part = spec_retained(files.drop_last());
        assert forall|i: int|
            0 <= i < spec_retained(files).len() implies spec_has_rs_extension(
            #[trigger] spec_retained(files)[i],
        ) by {
            if i < prefix_part.len() {
                assert(spec_retained(files)[i] == prefix_part[i]);
            } else {
                assert(spec_retained(files)[i] == files.last());
            }
        }
    }
}

/// The collector's plan is a function of the discovery alone: two runs over
/// the same set of discovered paths stage the same relative identities at
/// the same destinations.
pub proof fn lemma_plan_deterministic(
    first: Seq<Seq<char>>,
    second: Seq<Seq<char>>,
    to: Seq<char>,
    prefix: Seq<char>,
)
    requires
        first == second,
    ensures
        spec_retained(first) == spec_retained(second),
        spec_retained(first).map_values(|p: Seq<char>| spec_dest(p, to, prefix)) == spec_retained(
            second,
        ).map_values(|p: Seq<char>| spec_dest(p, to, prefix)),
{
}

/// Distinct files under the same root keep distinct identities after
/// prefix-stripping and re-rooting: the staging tree never collides two
/// discovered files, provided paths are normalized (no trailing separator).
pub proof fn lemma_dest_injective(
    path_a: Seq<char>,
    path_b: Seq<char>,
    to: Seq<char>,
    prefix: Seq<char>,
)
    requires
        spec_has_path_prefix(path_a, prefix),
        spec_has_path_prefix(path_b, prefix),
        path_a.len() > 0 ==> path_a[path_a.len() - 1] != '/',
        path_b.len() > 0 ==> path_b[path_b.len() - 1] != '/',
        path_a != path_b,
    ensures
        spec_dest(path_a, to, prefix) != spec_dest(path_b, to, prefix),
{
    let s1 = spec_stripped(path_a, prefix);
    let s2 = spec_stripped(path_b, prefix);
    if spec_dest(path_a, to, prefix) == spec_dest(path_b, to, prefix) {
        assert(s1 =~= s2) by {
            assert(spec_path_join(to, s1).len() == spec_path_join(to, s2).len());
            assert(forall|i: int|
                0 <= i < s1.len() ==> s1[i] == spec_path_join(to, s1)[to.len() + 1 + i]
                    && s2[i] == spec_path_join(to, s2)[to.len() + 1 + i]);
        }
        if path_a == prefix {
            // path_b must strip to the empty remainder as well, so path_b is the
            // prefix followed by a bare separator, which normalization
            // forbids.
            assert(s1.len() == 0);
            assert(path_b != prefix);
            assert(path_b.len() == prefix.len() + 1);
            assert(path_b[path_b.len() - 1] == '/');
            assert(false);
        } else if path_b == prefix {
            assert(s2.len() == 0);
            assert(path_a.len() == prefix.len() + 1);
            assert(path_a[path_a.len() - 1] == '/');
            assert(false);
        } else {
            assert(path_a =~= path_b) by {
                assert(path_a.len() == prefix.len() + 1 + s1.len());
                assert(path_b.len() == prefix.len() + 1 + s2.len());
                assert(forall|i: int|
                    0 <= i < prefix.len() ==> path_a[i] == prefix[i] && path_b[i] == prefix[i]);
                assert(path_a[prefix.len() as int] == '/' && path_b[prefix.len() as int] == '/');
                assert(forall|i: int|
                    prefix.len() + 1 <= i < path_a.len() ==> path_a[i] == s1[i - prefix.len() - 1]
                        && path_b[i] == s2[i - prefix.len() - 1]);
            }
            assert(false);
        }
    }
}

} // verus!
