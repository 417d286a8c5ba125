use faircamp::permalink::{subscribe_permalink, validate_permalinks, PageKind, PermalinkClaim, PermalinkConflict};

fn claim(kind: PageKind, name: &str, slug: &str, generated: bool) -> PermalinkClaim {
    PermalinkClaim { kind, name: String::from(name), slug: String::from(slug), generated }
}

#[test]
fn distinct_assigned_permalinks_pass() {
    let claims = vec![
        claim(PageKind::Release, "Debut", "debut", false),
        claim(PageKind::Artist, "Alice", "alice", false),
    ];
    let validation = validate_permalinks(&claims);
    assert!(validation.conflicts.is_empty());
    assert_eq!(validation.generated_warning, None);
}

#[test]
fn conflicts_name_the_first_holder_of_the_slug() {
    let claims = vec![
        claim(PageKind::Release, "Debut", "debut", false),
        claim(PageKind::Release, "Debut (Remastered)", "debut", false),
        claim(PageKind::Artist, "Debut", "debut", true),
        claim(PageKind::Artist, "Alice", "alice", false),
    ];
    let validation = validate_permalinks(&claims);
    assert_eq!(
        validation.conflicts,
        vec![
            PermalinkConflict { claim: 1, previous: 0 },
            PermalinkConflict { claim: 2, previous: 0 },
        ]
    );
    assert_eq!(validation.generated_warning, None);
}

#[test]
fn one_generated_permalink_is_named() {
    let claims = vec![claim(PageKind::Artist, "Alice", "alice", true)];
    assert_eq!(
        validate_permalinks(&claims).generated_warning,
        Some(String::from(
            "The artist 'Alice' has no user-assigned permalink, it is recommended to assign one."
        ))
    );
}

#[test]
fn two_and_three_generated_permalinks_are_named() {
    let mut claims = vec![
        claim(PageKind::Release, "Debut", "debut", true),
        claim(PageKind::Artist, "Alice", "alice", true),
    ];
    assert_eq!(
        validate_permalinks(&claims).generated_warning,
        Some(String::from(
            "The release 'Debut' and the artist 'Alice' have no user-assigned permalinks, it is recommended to assign some."
        ))
    );
    claims.push(claim(PageKind::Artist, "Bob", "bob", true));
    assert_eq!(
        validate_permalinks(&claims).generated_warning,
        Some(String::from(
            "The release 'Debut', the artist 'Alice' and the artist 'Bob' have no user-assigned permalinks, it is recommended to assign some."
        ))
    );
}

#[test]
fn further_generated_permalinks_are_counted() {
    let claims = vec![
        claim(PageKind::Release, "A", "a", true),
        claim(PageKind::Release, "B", "b", false),
        claim(PageKind::Release, "C", "c", true),
        claim(PageKind::Release, "D", "d", true),
        claim(PageKind::Artist, "E", "e", true),
        claim(PageKind::Artist, "F", "f", true),
        claim(PageKind::Artist, "A again", "a", true),
    ];
    let validation = validate_permalinks(&claims);
    assert_eq!(validation.conflicts, vec![PermalinkConflict { claim: 6, previous: 0 }]);
    assert_eq!(
        validation.generated_warning,
        Some(String::from(
            "The release 'A', the release 'C', the release 'D' and 2 other things have no user-assigned permalinks, it is recommended to assign some."
        ))
    );
}

#[test]
fn no_claims_no_findings() {
    let validation = validate_permalinks(&Vec::new());
    assert!(validation.conflicts.is_empty());
    assert_eq!(validation.generated_warning, None);
}

#[test]
fn subscribe_permalink_is_kept_apart_from_taken_slugs() {
    let taken = vec![String::from("subscribe"), String::from("_subscribe"), String::from("alice")];
    assert_eq!(subscribe_permalink("subscribe", &taken), "__subscribe");
    assert_eq!(subscribe_permalink("abonnieren", &taken), "abonnieren");
    assert_eq!(subscribe_permalink("", &vec![String::new()]), "_");
}
