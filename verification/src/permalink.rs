use vstd::prelude::*;

use crate::text::{decimal_string, push_decimal, str_equal, views};

verus! {

/// The kind of page that claims a permalink.
#[derive(Clone, Copy, Debug, PartialEq, Eq, Structural)]
pub enum PageKind {
    Artist,
    Release,
}

/// A page's claim to a permalink: the slug under which the page is
/// published, whether the slug was generated (rather than assigned in a
/// manifest), and the artist's name or the release's title.
#[derive(Clone, Debug)]
pub struct PermalinkClaim {
    pub kind: PageKind,
    pub name: String,
    pub slug: String,
    pub generated: bool,
}

/// A claim whose slug an earlier claim already holds.
#[derive(Clone, Copy, Debug, PartialEq, Eq, Structural)]
pub struct PermalinkConflict {
    /// The index of the conflicting claim.
    pub claim: usize,
    /// The index of the claim that holds the slug.
    pub previous: usize,
}

/// What the validation of all claims finds: the conflicts, in the order of
/// the claims, and a warning about the pages whose permalinks were
/// generated, if any are.
#[derive(Clone, Debug)]
pub struct PermalinkValidation {
    pub conflicts: Vec<PermalinkConflict>,
    pub generated_warning: Option<String>,
}

/// The first of the claims before `k` whose slug is `slug`.
pub open spec fn earliest_with_slug(claims: Seq<PermalinkClaim>, slug: Seq<char>, k: int) -> Option<int>
    decreases k,
{
    if k <= 0 {
        None
    } else {
        match earliest_with_slug(claims, slug, k - 1) {
            Some(j) => Some(j),
            None => if claims[k - 1].slug@ == slug {
                Some(k - 1)
            } else {
                None
            },
        }
    }
}

/// The claim that holds the slug of claim `i` before it, if any does: the
/// first claim with that slug.
pub open spec fn holder_before(claims: Seq<PermalinkClaim>, i: int) -> Option<int> {
    earliest_with_slug(claims, claims[i].slug@, i)
}

/// The conflicts among the first `n` claims, in order.
pub open spec fn conflicts_among(claims: Seq<PermalinkClaim>, n: int) -> Seq<PermalinkConflict>
    decreases n,
{
    if n <= 0 {
        seq![]
    } else {
        let earlier = conflicts_among(claims, n - 1);
        match holder_before(claims, n - 1) {
            Some(j) => earlier.push(PermalinkConflict { claim: (n - 1) as usize, previous: j as usize }),
            None => earlier,
        }
    }
}

/// The claims among the first `n` that hold their slug and whose slug was
/// generated, in order.
pub open spec fn generated_among(claims: Seq<PermalinkClaim>, n: int) -> Seq<int>
    decreases n,
{
    if n <= 0 {
        seq![]
    } else {
        let earlier = generated_among(claims, n - 1);
        if holder_before(claims, n - 1) is None && claims[n - 1].generated {
            earlier.push(n - 1)
        } else {
            earlier
        }
    }
}

/// How a page is named in messages: "artist 'Alice'" or "release 'Debut'".
pub open spec fn page_label(claim: PermalinkClaim) -> Seq<char> {
    match claim.kind {
        PageKind::Artist => "artist '"@ + claim.name@ + "'"@,
        PageKind::Release => "release '"@ + claim.name@ + "'"@,
    }
}

/// The warning about the pages with generated permalinks: the first three
/// are named, the others counted.
pub open spec fn generated_warning(claims: Seq<PermalinkClaim>, generated: Seq<int>) -> Option<
    Seq<char>,
> {
    let n = generated.len();
    if n == 0 {
        None
    } else if n == 1 {
        Some(
            "The "@ + page_label(claims[generated[0]])
                + " has no user-assigned permalink, it is recommended to assign one."@,
        )
    } else if n == 2 {
        Some(
            "The "@ + page_label(claims[generated[0]]) + " and the "@ + page_label(claims[generated[1]])
                + " have no user-assigned permalinks, it is recommended to assign some."@,
        )
    } else if n == 3 {
        Some(
            "The "@ + page_label(claims[generated[0]]) + ", the "@ + page_label(claims[generated[1]])
                + " and the "@ + page_label(claims[generated[2]])
                + " have no user-assigned permalinks, it is recommended to assign some."@,
        )
    } else {
        Some(
            "The "@ + page_label(claims[generated[0]]) + ", the "@ + page_label(claims[generated[1]])
                + ", the "@ + page_label(claims[generated[2]]) + " and "@ + decimal_string((n - 3) as nat)
                + " other things have no user-assigned permalinks, it is recommended to assign some."@,
        )
    }
}

proof fn lemma_earliest_stays(claims: Seq<PermalinkClaim>, slug: Seq<char>, k: int, m: int)
    requires
        0 <= k <= m,
        earliest_with_slug(claims, slug, k) is Some,
    ensures
        earliest_with_slug(claims, slug, m) == earliest_with_slug(claims, slug, k),
    decreases m - k,
{
    if k < m {
        lemma_earliest_stays(claims, slug, k, m - 1);
    }
}

proof fn lemma_earliest_found(claims: Seq<PermalinkClaim>, slug: Seq<char>, k: int)
    requires
        0 <= k,
    ensures
        earliest_with_slug(claims, slug, k) matches Some(j) ==> 0 <= j < k && claims[j].slug@ == slug
            && forall|i: int| 0 <= i < j ==> claims[i].slug@ != slug,
        earliest_with_slug(claims, slug, k) is None ==> forall|i: int|
            0 <= i < k ==> claims[i].slug@ != slug,
    decreases k,
{
    if k > 0 {
        lemma_earliest_found(claims, slug, k - 1);
    }
}

/// The first claim before `i` that has the slug of claim `i`.
fn find_holder(claims: &Vec<PermalinkClaim>, i: usize) -> (holder: Option<usize>)
    requires
        i < claims@.len(),
    ensures
        match holder {
            Some(j) => holder_before(claims@, i as int) == Some(j as int),
            None => holder_before(claims@, i as int) is None,
        },
{
    let slug = claims[i].slug.as_str();
    let mut j: usize = 0;
    while j < i
        invariant
            i < claims@.len(),
            j <= i,
            slug@ == claims@[i as int].slug@,
            earliest_with_slug(claims@, slug@, j as int) is None,
        decreases i - j,
    {
        if str_equal(claims[j].slug.as_str(), slug) {
            proof {
                assert(earliest_with_slug(claims@, slug@, j + 1) == Some(j as int));
                lemma_earliest_stays(claims@, slug@, j + 1, i as int);
            }
            return Some(j);
        }
        j = j + 1;
    }
    None
}

fn push_label(out: &mut String, claim: &PermalinkClaim)
    ensures
        final(out)@ == old(out)@ + page_label(*claim),
{
    match claim.kind {
        PageKind::Artist => out.append("artist '"),
        PageKind::Release => out.append("release '"),
    }
    out.append(claim.name.as_str());
    out.append("'");
}

/// Writes the warning about pages with generated permalinks.
fn generated_warning_text(claims: &Vec<PermalinkClaim>, generated: &Vec<usize>) -> (warning: Option<String>)
    requires
        forall|k: int| 0 <= k < generated@.len() ==> #[trigger] generated@[k] < claims@.len(),
    ensures
        match warning {
            Some(w) => generated_warning(claims@, generated@.map_values(|g: usize| g as int)) == Some(w@),
            None => generated_warning(claims@, generated@.map_values(|g: usize| g as int)) is None,
        },
{
    let ghost indices = generated@.map_values(|g: usize| g as int);
    let n = generated.len();
    if n == 0 {
        return None;
    }
    let mut text = String::from_str("The ");
    push_label(&mut text, &claims[generated[0]]);
    if n == 1 {
        text.append(" has no user-assigned permalink, it is recommended to assign one.");
    } else if n == 2 {
        text.append(" and the ");
        push_label(&mut text, &claims[generated[1]]);
        text.append(" have no user-assigned permalinks, it is recommended to assign some.");
    } else if n == 3 {
        text.append(", the ");
        push_label(&mut text, &claims[generated[1]]);
        text.append(" and the ");
        push_label(&mut text, &claims[generated[2]]);
        text.append(" have no user-assigned permalinks, it is recommended to assign some.");
    } else {
        text.append(", the ");
        push_label(&mut text, &claims[generated[1]]);
        text.append(", the ");
        push_label(&mut text, &claims[generated[2]]);
        text.append(" and ");
        let further: usize = n - 3;
        push_decimal(&mut text, further as u64);
        text.append(" other things have no user-assigned permalinks, it is recommended to assign some.");
    }
    assert(indices[0] == generated@[0] as int);
    assert(n >= 2 ==> indices[1] == generated@[1] as int);
    assert(n >= 3 ==> indices[2] == generated@[2] as int);
    Some(text)
}

/// Finds the pages whose permalink an earlier page already holds (each
/// slug belongs to the first page that claims it), and the warning about
/// the pages, among those that hold their slug, whose permalinks were
/// generated. Release pages are claimed before artist pages.
pub fn validate_permalinks(claims: &Vec<PermalinkClaim>) -> (validation: PermalinkValidation)
    ensures
        validation.conflicts@ == conflicts_among(claims@, claims@.len() as int),
        match validation.generated_warning {
            Some(w) => generated_warning(claims@, generated_among(claims@, claims@.len() as int))
                == Some(w@),
            None => generated_warning(claims@, generated_among(claims@, claims@.len() as int)) is None,
        },
{
    let mut conflicts: Vec<PermalinkConflict> = Vec::new();
    let mut generated: Vec<usize> = Vec::new();
    let mut i: usize = 0;
    while i < claims.len()
        invariant
            i <= claims@.len(),
            conflicts@ == conflicts_among(claims@, i as int),
            generated@.map_values(|g: usize| g as int) == generated_among(claims@, i as int),
            forall|k: int| 0 <= k < generated@.len() ==> #[trigger] generated@[k] < i,
        decreases claims@.len() - i,
    {
        match find_holder(claims, i) {
            Some(previous) => {
                conflicts.push(PermalinkConflict { claim: i, previous });
            },
            None => {
                if claims[i].generated {
                    let ghost before = generated@;
                    generated.push(i);
                    assert(generated@.map_values(|g: usize| g as int) =~= before.map_values(
                        |g: usize| g as int,
                    ).push(i as int));
                }
            },
        }
        i = i + 1;
    }
    let generated_warning = generated_warning_text(claims, &generated);
    PermalinkValidation { conflicts, generated_warning }
}

proof fn lemma_distinct_among(claims: Seq<PermalinkClaim>, n: int)
    requires
        0 <= n <= claims.len(),
    ensures
        conflicts_among(claims, n).len() == 0 <==> forall|i: int, j: int|
            0 <= i < j < n ==> claims[i].slug@ != claims[j].slug@,
    decreases n,
{
    if n > 0 {
        lemma_distinct_among(claims, n - 1);
        lemma_earliest_found(claims, claims[n - 1].slug@, n - 1);
        if conflicts_among(claims, n).len() == 0 {
            assert forall|i: int, j: int| 0 <= i < j < n implies claims[i].slug@ != claims[j].slug@ by {
                if j == n - 1 {
                    assert(claims[i].slug@ != claims[n - 1].slug@);
                }
            }
        }
    }
}

/// The permalinks are free of conflicts exactly where no two pages claim
/// the same slug.
pub proof fn lemma_conflict_free_iff_distinct_slugs(claims: Seq<PermalinkClaim>)
    ensures
        conflicts_among(claims, claims.len() as int).len() == 0 <==> forall|i: int, j: int|
            0 <= i < j < claims.len() ==> claims[i].slug@ != claims[j].slug@,
{
    lemma_distinct_among(claims, claims.len() as int);
}

proof fn lemma_conflicts_among_name_holders(claims: Seq<PermalinkClaim>, n: int)
    requires
        0 <= n <= claims.len() <= usize::MAX,
    ensures
        forall|k: int|
            0 <= k < conflicts_among(claims, n).len() ==> {
                let c = #[trigger] conflicts_among(claims, n)[k];
                &&& c.previous < c.claim < n
                &&& claims[c.previous as int].slug@ == claims[c.claim as int].slug@
                &&& holder_before(claims, c.previous as int) is None
            },
    decreases n,
{
    if n > 0 {
        lemma_conflicts_among_name_holders(claims, n - 1);
        let slug = claims[n - 1].slug@;
        lemma_earliest_found(claims, slug, n - 1);
        if let Some(j) = holder_before(claims, n - 1) {
            lemma_earliest_found(claims, slug, j);
            assert(claims[j].slug@ == slug);
        }
    }
}

/// Every conflict names an earlier page with the same slug, and that page
/// holds the slug: it is itself in no conflict.
pub proof fn lemma_conflicts_name_the_holder(claims: Seq<PermalinkClaim>)
    requires
        claims.len() <= usize::MAX,
    ensures
        forall|k: int|
            0 <= k < conflicts_among(claims, claims.len() as int).len() ==> {
                let c = #[trigger] conflicts_among(claims, claims.len() as int)[k];
                &&& c.previous < c.claim < claims.len()
                &&& claims[c.previous as int].slug@ == claims[c.claim as int].slug@
                &&& holder_before(claims, c.previous as int) is None
            },
{
    lemma_conflicts_among_name_holders(claims, claims.len() as int);
}

/// `base` with `k` underscores in front.
pub open spec fn underscored(base: Seq<char>, k: nat) -> Seq<char>
    decreases k,
{
    if k == 0 {
        base
    } else {
        seq!['_'] + underscored(base, (k - 1) as nat)
    }
}

proof fn lemma_underscored_len(base: Seq<char>, k: nat)
    ensures
        underscored(base, k).len() == base.len() + k,
    decreases k,
{
    if k > 0 {
        lemma_underscored_len(base, (k - 1) as nat);
    }
}

fn is_taken(taken: &Vec<String>, slug: &str) -> (b: bool)
    ensures
        b == views(taken@).contains(slug@),
{
    let mut i: usize = 0;
    while i < taken.len()
        invariant
            i <= taken@.len(),
            forall|j: int| 0 <= j < i ==> views(taken@)[j] != slug@,
        decreases taken@.len() - i,
    {
        if str_equal(taken[i].as_str(), slug) {
            assert(views(taken@)[i as int] == slug@);
            return true;
        }
        i = i + 1;
    }
    false
}

/// The slug of the subscribe page: the translated slug `base`, with as few
/// underscores in front as keep it apart from every slug in `taken` (those
/// of the featured artists and the releases).
pub fn subscribe_permalink(base: &str, taken: &Vec<String>) -> (slug: String)
    ensures
        exists|k: nat|
            slug@ == #[trigger] underscored(base@, k) && !views(taken@).contains(slug@) && forall|j: nat|
                j < k ==> views(taken@).contains(#[trigger] underscored(base@, j)),
{
    let mut longest: usize = 0;
    let mut i: usize = 0;
    while i < taken.len()
        invariant
            i <= taken@.len(),
            forall|j: int| 0 <= j < i ==> views(taken@)[j].len() <= longest,
        decreases taken@.len() - i,
    {
        let n = taken[i].unicode_len();
        if n > longest {
            longest = n;
        }
        i = i + 1;
    }
    let mut slug = String::from_str(base);
    let ghost mut k: nat = 0;
    proof {
        lemma_underscored_len(base@, 0);
    }
    while is_taken(taken, slug.as_str())
        invariant
            slug@ == underscored(base@, k),
            slug@.len() == base@.len() + k,
            forall|j: int| 0 <= j < taken@.len() ==> views(taken@)[j].len() <= longest,
            forall|j: nat| j < k ==> views(taken@).contains(#[trigger] underscored(base@, j)),
        decreases longest + 1 - slug@.len(),
    {
        proof {
            let w = choose|w: int| 0 <= w < views(taken@).len() && views(taken@)[w] == slug@;
            assert(slug@.len() <= longest);
            assert forall|j: nat| j < k + 1 implies views(taken@).contains(#[trigger] underscored(base@, j)) by {
                if j == k {
                    assert(views(taken@)[w] == underscored(base@, j));
                }
            }
        }
        let mut next = String::from_str("_");
        next.append(slug.as_str());
        proof {
            reveal_strlit("_");
            assert(next@ =~= underscored(base@, k + 1));
            k = k + 1;
            lemma_underscored_len(base@, k);
        }
        slug = next;
    }
    slug
}

} // verus!
