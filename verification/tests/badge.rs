use nameit::available::Sources;
use nameit::badge::{badge_status, match_source};

#[test]
fn badge_shows_the_source() {
    assert_eq!(match_source(Sources::PackageNpm), ("icon-[devicon--npm-wordmark]", "package"));
    assert_eq!(match_source(Sources::OrgNpm), ("icon-[devicon--npm-wordmark]", "org"));
    assert_eq!(match_source(Sources::Github), ("icon-[devicon--github]", ""));
}

#[test]
fn badge_shows_the_state() {
    let spinner =
        "icon-[svg-spinners--270-ring-with-bg] w-5 h-5 relative top-[2px] left-[2px] text-black/70";
    assert_eq!(badge_status(true, None), spinner);
    assert_eq!(badge_status(true, Some(true)), spinner);
    assert_eq!(badge_status(true, Some(false)), spinner);
    assert_eq!(
        badge_status(false, Some(true)),
        "icon-[heroicons--check-circle] w-6 h-6 text-green-800"
    );
    assert_eq!(badge_status(false, Some(false)), "icon-[heroicons--x-circle] w-6 h-6 text-red-800");
    assert_eq!(badge_status(false, None), "icon-[heroicons--x-circle] w-6 h-6 text-black/10");
}
