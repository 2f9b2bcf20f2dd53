use nameit::available::{
    lookup_key, lookup_url, page_exists, Available, AvailabilityStatus, Sources,
};
use nameit::state::{AppCache, CacheData, Cached, EXISTS_TTL_MS};

fn text(value: &str) -> String {
    value.to_string()
}

#[test]
fn keys_name_source_and_candidate() {
    assert_eq!(lookup_key(Sources::Github, &text("foo")), "github-foo");
    assert_eq!(lookup_key(Sources::PackageNpm, &text("react")), "packagenpm-react");
    assert_eq!(lookup_key(Sources::OrgNpm, &text("react")), "orgnpm-react");
    assert_eq!(lookup_key(Sources::Github, &text("")), "github-");
    assert_eq!(lookup_key(Sources::Github, &text("a-b")), "github-a-b");
}

#[test]
fn keys_differ_between_sources() {
    let sources = [Sources::PackageNpm, Sources::OrgNpm, Sources::Github];
    let names = ["", "a", "npm", "orgnpm", "npm-x", "github-x", "-"];
    let mut keys = Vec::new();
    for source in sources {
        for name in names {
            keys.push(lookup_key(source, &text(name)));
        }
    }
    for i in 0..keys.len() {
        for j in 0..i {
            assert_ne!(keys[i], keys[j]);
        }
    }
}

#[test]
fn addresses_follow_the_source() {
    assert_eq!(
        lookup_url(Sources::PackageNpm, &text("react")),
        "https://www.npmjs.com/package/react"
    );
    assert_eq!(lookup_url(Sources::OrgNpm, &text("react")), "https://www.npmjs.com/org/react");
    assert_eq!(lookup_url(Sources::Github, &text("react")), "https://github.com/react");
}

#[test]
fn source_ids() {
    assert_eq!(Sources::PackageNpm.id(), "packagenpm");
    assert_eq!(Sources::OrgNpm.id(), "orgnpm");
    assert_eq!(Sources::Github.id(), "github");
}

#[test]
fn only_not_found_means_free() {
    assert!(page_exists(Some(404)));
    assert!(!page_exists(Some(200)));
    assert!(!page_exists(Some(301)));
    assert!(!page_exists(Some(403)));
    assert!(!page_exists(Some(500)));
    assert!(!page_exists(Some(0)));
    assert!(!page_exists(None));
}

#[test]
fn cache_before_network() {
    let now = 5_000;
    let mut cache = AppCache::new();
    cache.set_value(
        text("github-foo"),
        CacheData::Exists(Cached::new(true, now, EXISTS_TTL_MS)),
    );
    let mut lookup = Available::new(Sources::Github);
    let fetch = lookup.query_changed(&mut cache, text("foo"), now);
    assert_eq!(fetch, None);
    assert_eq!(lookup.status(), Some(AvailabilityStatus::Known(true)));
    assert!(lookup.available());
    assert!(!lookup.loading());
}

#[test]
fn cached_taken_name_resolves_to_taken() {
    let mut cache = AppCache::new();
    cache.set_exists(text("github-foo"), false, 0);
    let mut lookup = Available::new(Sources::Github);
    assert_eq!(lookup.query_changed(&mut cache, text("foo"), 1), None);
    assert_eq!(lookup.status(), Some(AvailabilityStatus::Known(false)));
    assert!(!lookup.available());
}

#[test]
fn cache_entry_of_another_source_is_no_hit() {
    let mut cache = AppCache::new();
    cache.set_exists(text("github-foo"), true, 0);
    let mut lookup = Available::new(Sources::OrgNpm);
    assert_eq!(
        lookup.query_changed(&mut cache, text("foo"), 1),
        Some(text("https://www.npmjs.com/org/foo"))
    );
    assert_eq!(lookup.status(), Some(AvailabilityStatus::Loading));
}

#[test]
fn expired_cache_entry_is_no_hit() {
    let mut cache = AppCache::new();
    cache.set_exists(text("github-foo"), true, 0);
    let mut lookup = Available::new(Sources::Github);
    let fetch = lookup.query_changed(&mut cache, text("foo"), EXISTS_TTL_MS + 1);
    assert_eq!(fetch, Some(text("https://github.com/foo")));
    assert!(lookup.loading());
    assert_eq!(cache.get_value(text("github-foo")), Some(CacheData::Expired));
}

#[test]
fn empty_candidate_is_idle() {
    let mut cache = AppCache::new();
    for source in [Sources::PackageNpm, Sources::OrgNpm, Sources::Github] {
        let mut lookup = Available::new(source);
        assert_eq!(lookup.status(), None);
        assert_eq!(lookup.query_changed(&mut cache, text(""), 0), None);
        assert_eq!(lookup.status(), None);
        assert!(!lookup.loading());
        assert!(!lookup.available());
        assert_eq!(lookup.source(), source);
    }
    assert_eq!(cache.get_value(text("github-")), None);
}

#[test]
fn scenario_lookup_then_repeat() {
    let mut cache = AppCache::new();
    let mut lookup = Available::new(Sources::PackageNpm);
    let mut fetches = 0;

    assert_eq!(lookup.query_changed(&mut cache, text(""), 0), None);
    assert_eq!(lookup.status(), None);

    let fetch = lookup.query_changed(&mut cache, text("react"), 10);
    assert_eq!(fetch, Some(text("https://www.npmjs.com/package/react")));
    assert_eq!(lookup.status(), Some(AvailabilityStatus::Loading));
    fetches += 1;

    lookup.resolved(&mut cache, text("react"), Some(page_exists(Some(404))), 20);
    assert_eq!(lookup.status(), Some(AvailabilityStatus::Known(true)));
    assert_eq!(
        cache.get_value(text("packagenpm-react")),
        Some(CacheData::Exists(Cached { value: true, duration: EXISTS_TTL_MS, cached_at: 20 }))
    );

    if lookup.query_changed(&mut cache, text("react"), 20 + EXISTS_TTL_MS).is_some() {
        fetches += 1;
    }
    assert_eq!(lookup.status(), Some(AvailabilityStatus::Known(true)));

    let mut other_session = Available::new(Sources::PackageNpm);
    if other_session.query_changed(&mut cache, text("react"), 20 + EXISTS_TTL_MS).is_some() {
        fetches += 1;
    }
    assert_eq!(other_session.status(), Some(AvailabilityStatus::Known(true)));
    assert_eq!(fetches, 1);
}

#[test]
fn memo_outlives_the_cache_entry() {
    let mut cache = AppCache::new();
    let mut lookup = Available::new(Sources::Github);
    assert!(lookup.query_changed(&mut cache, text("foo"), 0).is_some());
    lookup.resolved(&mut cache, text("foo"), Some(true), 0);
    let late = 10 * EXISTS_TTL_MS;
    assert_eq!(lookup.query_changed(&mut cache, text("foo"), late), None);
    assert!(lookup.available());
    let mut other_session = Available::new(Sources::Github);
    assert_eq!(
        other_session.query_changed(&mut cache, text("foo"), late),
        Some(text("https://github.com/foo"))
    );
}

#[test]
fn cache_hit_goes_into_the_memo() {
    let mut cache = AppCache::new();
    cache.set_exists(text("github-foo"), true, 0);
    let mut lookup = Available::new(Sources::Github);
    assert_eq!(lookup.query_changed(&mut cache, text("foo"), 1), None);
    let mut empty = AppCache::new();
    assert_eq!(lookup.query_changed(&mut empty, text("foo"), 2), None);
    assert_eq!(lookup.status(), Some(AvailabilityStatus::Known(true)));
}

#[test]
fn failed_check_counts_as_taken_and_is_not_kept() {
    let mut cache = AppCache::new();
    let mut lookup = Available::new(Sources::Github);
    assert!(lookup.query_changed(&mut cache, text("foo"), 0).is_some());
    lookup.resolved(&mut cache, text("foo"), None, 1);
    assert_eq!(lookup.status(), Some(AvailabilityStatus::Known(false)));
    assert!(!lookup.available());
    assert!(!lookup.loading());
    assert_eq!(cache.get_value(text("github-foo")), None);
    assert_eq!(
        lookup.query_changed(&mut cache, text("foo"), 2),
        Some(text("https://github.com/foo"))
    );
}

#[test]
fn stale_result_does_not_touch_the_status() {
    let mut cache = AppCache::new();
    let mut lookup = Available::new(Sources::Github);
    assert!(lookup.query_changed(&mut cache, text("fo"), 0).is_some());
    assert!(lookup.query_changed(&mut cache, text("foo"), 1).is_some());
    lookup.resolved(&mut cache, text("fo"), Some(true), 2);
    assert_eq!(lookup.status(), Some(AvailabilityStatus::Loading));
    assert_eq!(cache.get_exists(text("github-fo"), 2), Some(true));
    lookup.resolved(&mut cache, text("foo"), Some(false), 3);
    assert_eq!(lookup.status(), Some(AvailabilityStatus::Known(false)));
    assert_eq!(lookup.query_changed(&mut cache, text("fo"), 4), None);
    assert_eq!(lookup.status(), Some(AvailabilityStatus::Known(true)));
}

#[test]
fn stale_failure_does_not_touch_the_status() {
    let mut cache = AppCache::new();
    let mut lookup = Available::new(Sources::Github);
    assert!(lookup.query_changed(&mut cache, text("fo"), 0).is_some());
    assert!(lookup.query_changed(&mut cache, text("foo"), 1).is_some());
    lookup.resolved(&mut cache, text("fo"), None, 2);
    assert_eq!(lookup.status(), Some(AvailabilityStatus::Loading));
}

#[test]
fn result_after_the_candidate_was_cleared_leaves_it_idle() {
    let mut cache = AppCache::new();
    let mut lookup = Available::new(Sources::Github);
    assert!(lookup.query_changed(&mut cache, text("foo"), 0).is_some());
    assert_eq!(lookup.query_changed(&mut cache, text(""), 1), None);
    lookup.resolved(&mut cache, text("foo"), Some(true), 2);
    assert_eq!(lookup.status(), None);
    assert_eq!(cache.get_exists(text("github-foo"), 2), Some(true));
}

#[test]
fn result_for_the_empty_candidate_is_ignored() {
    let mut cache = AppCache::new();
    let mut lookup = Available::new(Sources::Github);
    lookup.resolved(&mut cache, text(""), Some(true), 0);
    assert_eq!(lookup.status(), None);
    assert_eq!(cache.get_value(text("github-")), None);
}

#[test]
fn later_result_for_the_same_candidate_wins() {
    let mut cache = AppCache::new();
    let mut lookup = Available::new(Sources::Github);
    assert!(lookup.query_changed(&mut cache, text("foo"), 0).is_some());
    lookup.resolved(&mut cache, text("foo"), Some(true), 1);
    lookup.resolved(&mut cache, text("foo"), Some(false), 2);
    assert_eq!(lookup.status(), Some(AvailabilityStatus::Known(false)));
    assert_eq!(cache.get_exists(text("github-foo"), 3), Some(false));
}
