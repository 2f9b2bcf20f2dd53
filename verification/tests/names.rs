use nameit::names::{
    entry_from_parts, first_of, flag_from_parts, make_entry, scrape_entries, scrape_entry,
    scrape_flag, scrape_flags, scrape_items, unique_flags, ww2_names, ww2_names_fetched, Entry,
    Flag, NamesStep,
};
use nameit::state::{AppCache, CacheData};

const NAMES_URL: &str = "https://en.wikipedia.org/wiki/List_of_World_War_II_military_operations";

fn flag(title: &str, link: &str, src: &str) -> Flag {
    Flag { title: title.to_string(), link: link.to_string(), src: src.to_string() }
}

fn page(items: &str) -> String {
    format!(
        "<html><body><div class=\"mw-parser-output\"><ul>{}</ul></div></body></html>",
        items
    )
}

const ICON_DE: &str =
    "<span class=\"flagicon\"><a href=\"/wiki/Germany\" title=\"Germany\"><img src=\"de.png\"></a></span>";

const ICON_UK: &str =
    "<span class=\"flagicon\"><a href=\"/wiki/UK\" title=\"United Kingdom\"><img src=\"uk.png\"></a></span>";

#[test]
fn flag_needs_all_three_parts() {
    let some = |value: &str| Some(value.to_string());
    assert_eq!(flag_from_parts(some("t"), some("s"), some("l")), Some(flag("t", "l", "s")));
    assert_eq!(flag_from_parts(None, some("s"), some("l")), None);
    assert_eq!(flag_from_parts(some("t"), None, some("l")), None);
    assert_eq!(flag_from_parts(some("t"), some("s"), None), None);
    assert_eq!(flag_from_parts(None, None, None), None);
}

#[test]
fn repeated_images_are_dropped() {
    let flags = vec![
        flag("a", "/a", "1.png"),
        flag("b", "/b", "2.png"),
        flag("c", "/c", "1.png"),
        flag("d", "/d", "3.png"),
        flag("e", "/e", "2.png"),
    ];
    assert_eq!(
        unique_flags(&flags),
        vec![flag("a", "/a", "1.png"), flag("b", "/b", "2.png"), flag("d", "/d", "3.png")]
    );
    assert_eq!(unique_flags(&Vec::new()), Vec::new());
}

#[test]
fn flags_differ_by_image_alone() {
    let flags = vec![flag("a", "/a", "1.png"), flag("a", "/a", "2.png")];
    assert_eq!(unique_flags(&flags), flags);
    let same = vec![flag("a", "/a", "1.png"), flag("b", "/b", "1.png")];
    assert_eq!(unique_flags(&same), vec![flag("a", "/a", "1.png")]);
}

#[test]
fn entry_needs_a_flag() {
    assert_eq!(make_entry("t".to_string(), "/wiki/T".to_string(), &Vec::new()), None);
    assert_eq!(
        make_entry("t".to_string(), "/wiki/T".to_string(), &vec![flag("a", "/a", "1.png")]),
        Some(Entry {
            link: "https://en.wikipedia.org/wiki/T".to_string(),
            title: "t".to_string(),
            flags: vec![flag("a", "/a", "1.png")],
        })
    );
}

#[test]
fn document_gives_its_entries() {
    let text = page(&format!(
        "<li><a href=\"/wiki/Operation_A\">  Operation A \n</a> (1941) {}{}</li>\
         <li><a href=\"/wiki/Operation_B\">Operation B</a> {}</li>",
        ICON_DE, ICON_UK, ICON_UK
    ));
    let entries = scrape_entries(&text);
    assert_eq!(
        entries,
        Some(vec![
            Entry {
                link: "https://en.wikipedia.org/wiki/Operation_A".to_string(),
                title: "Operation A".to_string(),
                flags: vec![
                    flag("Germany", "/wiki/Germany", "de.png"),
                    flag("United Kingdom", "/wiki/UK", "uk.png"),
                ],
            },
            Entry {
                link: "https://en.wikipedia.org/wiki/Operation_B".to_string(),
                title: "Operation B".to_string(),
                flags: vec![flag("United Kingdom", "/wiki/UK", "uk.png")],
            },
        ])
    );
}

#[test]
fn items_without_flag_or_link_are_left_out() {
    let text = page(&format!(
        "<li><a href=\"/wiki/No_Flag\">No flag</a></li>\
         <li>No link {}</li>\
         <li><a>No target</a> {}</li>\
         <li><a href=\"/wiki/Kept\">Kept</a> {}</li>",
        ICON_DE, ICON_DE, ICON_DE
    ));
    let entries = scrape_entries(&text).unwrap();
    let titles: Vec<&str> = entries.iter().map(|entry| entry.title.as_str()).collect();
    assert_eq!(titles, vec!["", "Kept"]);
    assert_eq!(entries[0].link, "https://en.wikipedia.org/wiki/Germany");
}

#[test]
fn repeated_flags_of_an_item_are_shown_once() {
    let text = page(&format!(
        "<li><a href=\"/wiki/Op\">Op</a> {}{}{}</li>",
        ICON_DE, ICON_UK, ICON_DE
    ));
    let entries = scrape_entries(&text).unwrap();
    assert_eq!(entries.len(), 1);
    assert_eq!(
        entries[0].flags,
        vec![
            flag("Germany", "/wiki/Germany", "de.png"),
            flag("United Kingdom", "/wiki/UK", "uk.png"),
        ]
    );
}

#[test]
fn incomplete_flags_are_skipped() {
    let text = page(
        "<li><a href=\"/wiki/Op\">Op</a> \
         <span class=\"flagicon\"><a href=\"/wiki/X\"><img src=\"x.png\"></a></span>\
         <span class=\"flagicon\"><a href=\"/wiki/Y\" title=\"Y\"></a></span>\
         <span class=\"flagicon\"><a href=\"/wiki/Z\" title=\"Z\"><img src=\"z.png\"></a></span></li>",
    );
    let entries = scrape_entries(&text).unwrap();
    assert_eq!(entries.len(), 1);
    assert_eq!(entries[0].flags, vec![flag("Z", "/wiki/Z", "z.png")]);
}

#[test]
fn lists_outside_the_article_body_are_ignored() {
    let text = format!(
        "<html><body><ul><li><a href=\"/wiki/Op\">Op</a> {}</li></ul></body></html>",
        ICON_DE
    );
    assert_eq!(scrape_entries(&text), Some(Vec::new()));
    assert_eq!(scrape_entries(&String::new()), Some(Vec::new()));
    assert_eq!(scrape_entries(&"no markup at all".to_string()), Some(Vec::new()));
}

#[test]
fn names_come_from_the_cache_when_it_has_them() {
    let mut cache = AppCache::new();
    assert_eq!(ww2_names(&cache), NamesStep::Fetch(NAMES_URL.to_string()));
    let text = page(&format!("<li><a href=\"/wiki/Op\">Op</a> {}</li>", ICON_DE));
    let fetched = ww2_names_fetched(&mut cache, text.clone());
    assert_eq!(fetched.len(), 1);
    assert_eq!(fetched[0].title, "Op");
    assert_eq!(cache.get_value(NAMES_URL.to_string()), Some(CacheData::Html(text)));
    assert_eq!(ww2_names(&cache), NamesStep::Ready(fetched));
}

#[test]
fn other_entry_under_the_address_is_no_document() {
    let mut cache = AppCache::new();
    cache.set_exists(NAMES_URL.to_string(), true, 0);
    assert_eq!(ww2_names(&cache), NamesStep::Fetch(NAMES_URL.to_string()));
    cache.set_value(NAMES_URL.to_string(), CacheData::Expired);
    assert_eq!(ww2_names(&cache), NamesStep::Fetch(NAMES_URL.to_string()));
}

#[test]
fn flags_clone_to_equal_values() {
    let first = flag("a", "/a", "1.png");
    assert_eq!(first.clone(), first);
}

#[test]
fn element_gives_its_flag() {
    let fragment = scraper::Html::parse_fragment(ICON_DE);
    let flag_found = scrape_flag(fragment.root_element());
    assert_eq!(flag_found, Some(flag("Germany", "/wiki/Germany", "de.png")));

    let bare = scraper::Html::parse_fragment("<span class=\"flagicon\"><img src=\"x.png\"></span>");
    assert_eq!(scrape_flag(bare.root_element()), None);
    let no_image = scraper::Html::parse_fragment("<a href=\"/x\" title=\"X\">X</a>");
    assert_eq!(scrape_flag(no_image.root_element()), None);
}

#[test]
fn flag_takes_the_first_link_and_the_first_image() {
    let fragment = scraper::Html::parse_fragment(
        "<span><a href=\"/one\" title=\"One\"><img src=\"1.png\"></a>\
         <a href=\"/two\" title=\"Two\"><img src=\"2.png\"></a></span>",
    );
    assert_eq!(scrape_flag(fragment.root_element()), Some(flag("One", "/one", "1.png")));
}

#[test]
fn element_gives_its_entry() {
    let fragment = scraper::Html::parse_fragment(&format!(
        "<ul><li> <a href=\"/wiki/Op\">\t Op <b>Two</b> </a> {} </li></ul>",
        ICON_UK
    ));
    let selector = scraper::Selector::parse("li").unwrap();
    let item = fragment.select(&selector).next().unwrap();
    assert_eq!(
        scrape_entry(item),
        Some(Entry {
            link: "https://en.wikipedia.org/wiki/Op".to_string(),
            title: "Op Two".to_string(),
            flags: vec![flag("United Kingdom", "/wiki/UK", "uk.png")],
        })
    );
    let empty = scraper::Html::parse_fragment("<ul><li>nothing here</li></ul>");
    let item = empty.select(&selector).next().unwrap();
    assert_eq!(scrape_entry(item), None);
}

#[test]
fn entry_needs_link_target_and_flag() {
    let some = |value: &str| Some(value.to_string());
    let flags = vec![flag("a", "/a", "1.png"), flag("b", "/b", "1.png")];
    assert_eq!(
        entry_from_parts(some("Op"), some("/wiki/Op"), &flags),
        Some(Entry {
            link: "https://en.wikipedia.org/wiki/Op".to_string(),
            title: "Op".to_string(),
            flags: vec![flag("a", "/a", "1.png")],
        })
    );
    assert_eq!(entry_from_parts(None, some("/wiki/Op"), &flags), None);
    assert_eq!(entry_from_parts(some("Op"), None, &flags), None);
    assert_eq!(entry_from_parts(some("Op"), some("/wiki/Op"), &Vec::new()), None);
    assert_eq!(entry_from_parts(None, None, &Vec::new()), None);
}

#[test]
fn first_of_the_found_elements() {
    let fragment = scraper::Html::parse_fragment("<p id=\"one\"></p><p id=\"two\"></p>");
    let selector = scraper::Selector::parse("p").unwrap();
    let found: Vec<scraper::ElementRef> = fragment.select(&selector).collect();
    assert_eq!(found.len(), 2);
    assert_eq!(first_of(&found).and_then(|element| element.attr("id")), Some("one"));
    assert_eq!(first_of(&found), Some(found[0]));
    assert_eq!(first_of(&Vec::new()), None);
}

#[test]
fn no_elements_show_nothing() {
    assert_eq!(scrape_flags(&Vec::new()), Vec::new());
    assert_eq!(scrape_items(&Vec::new()), Vec::new());
}

#[test]
fn icons_show_their_flags_in_order() {
    let fragment = scraper::Html::parse_fragment(&format!(
        "<div>{}<span class=\"flagicon\"><img src=\"x.png\"></span>{}{}</div>",
        ICON_UK, ICON_DE, ICON_UK
    ));
    let selector = scraper::Selector::parse(".flagicon").unwrap();
    let icons: Vec<scraper::ElementRef> = fragment.select(&selector).collect();
    assert_eq!(icons.len(), 4);
    assert_eq!(
        scrape_flags(&icons),
        vec![
            flag("United Kingdom", "/wiki/UK", "uk.png"),
            flag("Germany", "/wiki/Germany", "de.png"),
            flag("United Kingdom", "/wiki/UK", "uk.png"),
        ]
    );
    let each: Vec<Flag> = icons.iter().filter_map(|icon| scrape_flag(*icon)).collect();
    assert_eq!(scrape_flags(&icons), each);
}

#[test]
fn items_show_their_entries_in_order() {
    let text = page(&format!(
        "<li><a href=\"/wiki/B\">B</a> {}</li>\
         <li><a href=\"/wiki/None\">No flag</a></li>\
         <li><a href=\"/wiki/A\">A</a> {}</li>",
        ICON_DE, ICON_UK
    ));
    let document = scraper::Html::parse_document(&text);
    let selector = scraper::Selector::parse("li").unwrap();
    let items: Vec<scraper::ElementRef> = document.select(&selector).collect();
    assert_eq!(items.len(), 3);
    let entries = scrape_items(&items);
    let titles: Vec<&str> = entries.iter().map(|entry| entry.title.as_str()).collect();
    assert_eq!(titles, vec!["B", "A"]);
    let each: Vec<Entry> = items.iter().filter_map(|item| scrape_entry(*item)).collect();
    assert_eq!(entries, each);
    assert_eq!(scrape_entries(&text), Some(entries));
}

#[test]
fn same_text_gives_the_same_entries() {
    let text = page(&format!(
        "<li><a href=\"/wiki/Op\">Op</a> {}{}</li><li><a href=\"/wiki/Two\">Two</a> {}</li>",
        ICON_DE, ICON_UK, ICON_DE
    ));
    let first = scrape_entries(&text);
    let second = scrape_entries(&text.clone());
    assert_eq!(first, second);
    assert_eq!(first.map(|entries| entries.len()), Some(2));
}

#[test]
fn every_entry_has_a_flag_and_an_address() {
    let text = page(&format!(
        "<li><a href=\"/wiki/Op\">Op</a> {}{}{}</li>\
         <li><a href=\"/wiki/Bare\">Bare</a></li>\
         <li><a href=\"relative\">Relative</a> {}</li>",
        ICON_DE, ICON_DE, ICON_UK, ICON_UK
    ));
    let entries = scrape_entries(&text).unwrap();
    assert_eq!(entries.len(), 2);
    for entry in &entries {
        assert!(!entry.flags.is_empty());
        assert!(entry.link.starts_with("https://en.wikipedia.org"));
        for (i, one) in entry.flags.iter().enumerate() {
            for other in &entry.flags[..i] {
                assert_ne!(one.src, other.src);
            }
        }
    }
    assert_eq!(entries[1].link, "https://en.wikipedia.orgrelative");
}

#[test]
fn title_loses_the_white_space_at_its_ends_only() {
    let text = page(&format!(
        "<li><a href=\"/wiki/Op\">\n\t  Operation  Sea   Lion \u{a0} </a> {}</li>",
        ICON_DE
    ));
    let entries = scrape_entries(&text).unwrap();
    assert_eq!(entries.len(), 1);
    assert_eq!(entries[0].title, "Operation  Sea   Lion");
}

#[test]
fn cached_document_gives_its_own_entries() {
    let text = page(&format!(
        "<li><a href=\"/wiki/A\">A</a> {}</li><li><a href=\"/wiki/B\">B</a> {}</li>",
        ICON_DE, ICON_UK
    ));
    let mut cache = AppCache::new();
    cache.set_html(NAMES_URL.to_string(), text.clone());
    assert_eq!(ww2_names(&cache), NamesStep::Ready(scrape_entries(&text).unwrap()));
    assert_eq!(cache.get_html(NAMES_URL.to_string()), Some(text));

    let other = page(&format!("<li><a href=\"/wiki/C\">C</a> {}</li>", ICON_UK));
    let fetched = ww2_names_fetched(&mut cache, other.clone());
    assert_eq!(Some(fetched), scrape_entries(&other));
    assert_eq!(ww2_names(&cache), NamesStep::Ready(scrape_entries(&other).unwrap()));
}
