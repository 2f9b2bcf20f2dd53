//! The list of operation names that the page offers as candidates, read
//! from a fetched document.
//!
//! The document is parsed and queried by the `scraper` crate. What that
//! crate returns is named here and not spelled out: the document that a
//! text spells, the elements that a selector finds, an element's
//! attributes and text. What this module decides is stated over those
//! names: what makes a flag and an entry, which parts must be there, that
//! an entry's flags differ in their images, and that an entry without a
//! flag is dropped. So the entries of a document are a function of its
//! text, [`entries_in`].

use crate::keyed::StringMap;
use crate::state::{html_lookup, AppCache, CacheEntry};
use scraper::{ElementRef, Html, Selector};
use vstd::prelude::*;

verus! {

/// `scraper::Html`: a parsed document. Nothing inside it is visible here.
#[verifier::external_type_specification]
#[verifier::external_body]
pub struct ExHtml(Html);

/// `scraper::Selector`: a parsed selector. Nothing inside it is visible here.
#[verifier::external_type_specification]
#[verifier::external_body]
pub struct ExSelector(Selector);

/// `scraper::ElementRef`: an element of a parsed document. Nothing inside
/// it is visible here.
#[verifier::external_type_specification]
#[verifier::external_body]
pub struct ExElementRef<'a>(ElementRef<'a>);

/// The selector that `css` spells, or `None` where `css` is no selector:
/// what `scraper::Selector::parse` makes of it.
pub uninterp spec fn selector_of(css: Seq<char>) -> Option<Selector>;

/// The document that `text` spells: what `scraper::Html::parse_document`
/// makes of it.
pub uninterp spec fn document_of(text: Seq<char>) -> Html;

/// The elements of `document` that match `selector`, in the order in which
/// `scraper::Html::select` yields them.
pub uninterp spec fn found_in(document: Html, selector: Selector) -> Seq<ElementRef<'static>>;

/// The elements below `element` that match `selector`, in the order in
/// which `scraper::ElementRef::select` yields them.
pub uninterp spec fn found_below(element: ElementRef<'static>, selector: Selector) -> Seq<
    ElementRef<'static>,
>;

/// The value of the attribute `name` of `element`, if it has one: what
/// `scraper::ElementRef::attr` returns.
pub uninterp spec fn attribute_of(element: ElementRef<'static>, name: Seq<char>) -> Option<
    Seq<char>,
>;

/// The text nodes below `element`, joined in the order in which
/// `scraper::ElementRef::text` yields them.
pub uninterp spec fn text_below(element: ElementRef<'static>) -> Seq<char>;

/// `text` without the white space at its two ends: what `str::trim` returns.
pub uninterp spec fn trimmed(text: Seq<char>) -> Seq<char>;

/// The characters of a string that may be missing.
pub open spec fn text_view(value: Option<String>) -> Option<Seq<char>> {
    match value {
        Some(text) => Some(text@),
        None => None,
    }
}

/// `scraper::Selector::parse`: the selector that `css` spells, or `None`
/// where `css` is no selector. The result depends on `css` alone and is
/// named [`selector_of`]; nothing is claimed of which texts are selectors.
#[verifier::external_body]
fn parse_selector(css: &str) -> (r: Option<Selector>)
    ensures
        r == selector_of(css@),
{
    Selector::parse(css).ok()
}

/// `scraper::Html::parse_document`: the document that `text` spells. Every
/// text is some document; it depends on `text` alone and is named
/// [`document_of`].
#[verifier::external_body]
fn parse_document(text: &str) -> (r: Html)
    ensures
        r == document_of(text@),
{
    Html::parse_document(text)
}

/// `scraper::Html::select`: the elements of `document` that match
/// `selector`, in the order in which the parsed tree stores them. They
/// depend on the document and the selector alone and are named
/// [`found_in`]; nothing is claimed of which elements these are.
#[verifier::external_body]
fn select_in_document<'a>(document: &'a Html, selector: &Selector) -> (r: Vec<ElementRef<'a>>)
    ensures
        r@ == found_in(*document, *selector),
{
    document.select(selector).collect()
}

/// `scraper::ElementRef::select`: the elements below `element` that match
/// `selector`, as a walk through the tree below it meets them. They depend
/// on the element and the selector alone and are named [`found_below`];
/// nothing is claimed of which elements these are.
#[verifier::external_body]
fn select_in_element<'a>(element: &ElementRef<'a>, selector: &Selector) -> (r: Vec<ElementRef<'a>>)
    ensures
        r@ == found_below(*element, *selector),
{
    element.select(selector).collect()
}

/// `scraper::ElementRef::attr`: the value of the attribute `name` of
/// `element`, if it has one. It depends on the element and the name alone
/// and is named [`attribute_of`].
#[verifier::external_body]
fn attribute(element: &ElementRef<'_>, name: &str) -> (r: Option<String>)
    ensures
        text_view(r) == attribute_of(*element, name@),
{
    element.attr(name).map(str::to_owned)
}

/// `scraper::ElementRef::text`: the text nodes below `element`, joined. The
/// text depends on the element alone and is named [`text_below`].
#[verifier::external_body]
fn text_of(element: &ElementRef<'_>) -> (r: String)
    ensures
        r@ == text_below(*element),
{
    element.text().collect()
}

/// Whether `part` is `text` without some of its start and some of its end.
pub open spec fn is_stretch_of(part: Seq<char>, text: Seq<char>) -> bool {
    exists|from: int, to: int|
        0 <= from <= to <= text.len() && part == #[trigger] text.subrange(from, to)
}

/// `str::trim`: `text` without the white space at its two ends. The result
/// depends on `text` alone and is named [`trimmed`]. Of which characters
/// count as white space the contract says nothing, only that the result is
/// a stretch of `text`.
#[verifier::external_body]
fn trim<'a>(text: &'a str) -> (r: &'a str)
    ensures
        r@ == trimmed(text@),
        is_stretch_of(r@, text@),
{
    text.trim()
}

/// Where the list of names is fetched from.
pub open spec fn names_url() -> Seq<char> {
    "https://en.wikipedia.org/wiki/List_of_World_War_II_military_operations"@
}

/// What stands before a link of the document to make it an address.
pub open spec fn link_prefix() -> Seq<char> {
    "https://en.wikipedia.org"@
}

/// A flag beside a name: what it shows, where it leads, and its image.
#[derive(Debug, PartialEq, Eq)]
pub struct Flag {
    pub title: String,
    pub link: String,
    pub src: String,
}

/// The mathematical value of a [`Flag`].
pub struct FlagView {
    pub title: Seq<char>,
    pub link: Seq<char>,
    pub src: Seq<char>,
}

impl View for Flag {
    type V = FlagView;

    open spec fn view(&self) -> FlagView {
        FlagView { title: self.title@, link: self.link@, src: self.src@ }
    }
}

impl Clone for Flag {
    /// A copy that stands for the same flag.
    fn clone(&self) -> (r: Self)
        ensures
            r@ == self@,
    {
        Flag { title: self.title.clone(), link: self.link.clone(), src: self.src.clone() }
    }
}

/// The values of a list of flags.
pub open spec fn flag_views(flags: Seq<Flag>) -> Seq<FlagView> {
    flags.map_values(|flag: Flag| flag@)
}

/// A name with the address of its article and the flags beside it.
#[derive(Debug, PartialEq, Eq)]
pub struct Entry {
    pub link: String,
    pub title: String,
    pub flags: Vec<Flag>,
}

/// The mathematical value of an [`Entry`].
pub struct EntryView {
    pub link: Seq<char>,
    pub title: Seq<char>,
    pub flags: Seq<FlagView>,
}

impl View for Entry {
    type V = EntryView;

    open spec fn view(&self) -> EntryView {
        EntryView { link: self.link@, title: self.title@, flags: flag_views(self.flags@) }
    }
}

/// Whether the image of `flags[i]` is that of an earlier flag in the list.
pub open spec fn seen_before(flags: Seq<FlagView>, i: int) -> bool {
    exists|j: int| 0 <= j < i && (#[trigger] flags[j]).src == flags[i].src
}

/// The flags of `flags` whose image no earlier flag has, in their order.
pub open spec fn unique_by_src(flags: Seq<FlagView>) -> Seq<FlagView>
    decreases flags.len(),
{
    if flags.len() == 0 {
        Seq::empty()
    } else if seen_before(flags, flags.len() - 1) {
        unique_by_src(flags.drop_last())
    } else {
        unique_by_src(flags.drop_last()).push(flags.last())
    }
}

/// No two flags of the list have the same image.
pub open spec fn distinct_by_src(flags: Seq<FlagView>) -> bool {
    forall|i: int, j: int|
        0 <= i < j < flags.len() ==> (#[trigger] flags[i]).src != (#[trigger] flags[j]).src
}

/// What every entry read from a document is like: it has a flag, its flags
/// differ in their images, and its link is an address.
pub open spec fn entry_ok(entry: EntryView) -> bool {
    &&& entry.flags.len() > 0
    &&& distinct_by_src(entry.flags)
    &&& entry.link.len() >= link_prefix().len()
    &&& entry.link.subrange(0, link_prefix().len() as int) == link_prefix()
}

/// The value of a flag that may be missing.
pub open spec fn flag_view(found: Option<Flag>) -> Option<FlagView> {
    match found {
        Some(flag) => Some(flag@),
        None => None,
    }
}

/// The value of an entry that may be missing.
pub open spec fn entry_view(found: Option<Entry>) -> Option<EntryView> {
    match found {
        Some(entry) => Some(entry@),
        None => None,
    }
}

/// The values of a list of entries.
pub open spec fn entry_views(entries: Seq<Entry>) -> Seq<EntryView> {
    entries.map_values(|entry: Entry| entry@)
}

/// The first of the elements that were found, if any was.
pub open spec fn first_among(found: Seq<ElementRef<'static>>) -> Option<ElementRef<'static>> {
    if found.len() > 0 {
        Some(found[0])
    } else {
        None
    }
}

/// The elements below `element` that match `css`; none where `css` is no
/// selector.
pub open spec fn all_below(element: ElementRef<'static>, css: Seq<char>) -> Seq<
    ElementRef<'static>,
> {
    match selector_of(css) {
        Some(selector) => found_below(element, selector),
        None => Seq::empty(),
    }
}

/// The first element below `element` that matches `css`, if any.
pub open spec fn first_below(element: ElementRef<'static>, css: Seq<char>) -> Option<
    ElementRef<'static>,
> {
    first_among(all_below(element, css))
}

/// The attribute `name` of the first element below `element` that matches
/// `css`, if there is such an element and it has the attribute.
pub open spec fn first_attribute_below(
    element: ElementRef<'static>,
    css: Seq<char>,
    name: Seq<char>,
) -> Option<Seq<char>> {
    match first_below(element, css) {
        Some(found) => attribute_of(found, name),
        None => None,
    }
}

/// The flag made of three parts, where all three are there.
pub open spec fn flag_of_parts(
    title: Option<Seq<char>>,
    src: Option<Seq<char>>,
    link: Option<Seq<char>>,
) -> Option<FlagView> {
    match (title, src, link) {
        (Some(title), Some(src), Some(link)) => Some(FlagView { title, link, src }),
        _ => None,
    }
}

/// The flag that `element` shows: the title and the target of its first
/// link and the source of its first image. All three must be there.
pub open spec fn flag_of(element: ElementRef<'static>) -> Option<FlagView> {
    flag_of_parts(
        first_attribute_below(element, "a"@, "title"@),
        first_attribute_below(element, "img"@, "src"@),
        first_attribute_below(element, "a"@, "href"@),
    )
}

/// The flags that the elements of `icons` show, in their order; an element
/// that shows none is passed over.
pub open spec fn flags_among(icons: Seq<ElementRef<'static>>) -> Seq<FlagView>
    decreases icons.len(),
{
    if icons.len() == 0 {
        Seq::empty()
    } else {
        match flag_of(icons.last()) {
            Some(flag) => flags_among(icons.drop_last()).push(flag),
            None => flags_among(icons.drop_last()),
        }
    }
}

/// The entry made of a name, the target of its link and the flags found
/// beside it: name and target must be there, and at least one flag. Flags
/// that repeat the image of an earlier one are left out.
pub open spec fn entry_of_parts(
    title: Option<Seq<char>>,
    href: Option<Seq<char>>,
    flags: Seq<FlagView>,
) -> Option<EntryView> {
    match (title, href) {
        (Some(title), Some(href)) => if flags.len() == 0 {
            None
        } else {
            Some(EntryView { link: link_prefix() + href, title, flags: unique_by_src(flags) })
        },
        _ => None,
    }
}

/// The name that the list item `item` shows: the text below its first
/// link, without the white space at its ends.
pub open spec fn title_of(item: ElementRef<'static>) -> Option<Seq<char>> {
    match first_below(item, "a"@) {
        Some(anchor) => Some(trimmed(text_below(anchor))),
        None => None,
    }
}

/// Whether `title` is a stretch of the text below the first link of `item`.
pub open spec fn title_from_link(item: ElementRef<'static>, title: Seq<char>) -> bool {
    first_below(item, "a"@) matches Some(anchor) && is_stretch_of(title, text_below(anchor))
}

/// The entry that the list item `item` shows: the text of its first link as
/// the name, the target of that link as the article, and the flags of its
/// flag icons. An item without a link, without a target or without a flag
/// shows none.
pub open spec fn entry_of(item: ElementRef<'static>) -> Option<EntryView> {
    entry_of_parts(
        title_of(item),
        first_attribute_below(item, "a"@, "href"@),
        flags_among(all_below(item, ".flagicon"@)),
    )
}

/// The entries that the elements of `items` show, in their order; an
/// element that shows none is passed over.
pub open spec fn entries_among(items: Seq<ElementRef<'static>>) -> Seq<EntryView>
    decreases items.len(),
{
    if items.len() == 0 {
        Seq::empty()
    } else {
        match entry_of(items.last()) {
            Some(entry) => entries_among(items.drop_last()).push(entry),
            None => entries_among(items.drop_last()),
        }
    }
}

/// The list items of the article's body in `document`.
pub open spec fn items_in(document: Html) -> Seq<ElementRef<'static>> {
    match selector_of(".mw-parser-output ul > li"@) {
        Some(selector) => found_in(document, selector),
        None => Seq::empty(),
    }
}

/// The entries that the document `text` shows: those of the list items of
/// the article's body, in the order in which they are found.
pub open spec fn entries_in(text: Seq<char>) -> Seq<EntryView> {
    entries_among(items_in(document_of(text)))
}

/// The flag made of what was found in an element: all three parts must be
/// there.
pub fn flag_from_parts(title: Option<String>, src: Option<String>, link: Option<String>) -> (r:
    Option<Flag>)
    ensures
        flag_view(r) == flag_of_parts(text_view(title), text_view(src), text_view(link)),
{
    match (title, src, link) {
        (Some(title), Some(src), Some(link)) => Some(Flag { title, link, src }),
        _ => None,
    }
}

/// What `unique_by_src` keeps: flags of the list, one for each image.
proof fn lemma_unique_by_src(flags: Seq<FlagView>)
    ensures
        distinct_by_src(unique_by_src(flags)),
        forall|k: int|
            0 <= k < unique_by_src(flags).len() ==> exists|j: int|
                0 <= j < flags.len() && #[trigger] flags[j] == (#[trigger] unique_by_src(flags)[k]),
        forall|j: int|
            0 <= j < flags.len() ==> exists|k: int|
                0 <= k < unique_by_src(flags).len() && (#[trigger] unique_by_src(flags)[k]).src
                    == (#[trigger] flags[j]).src,
        flags.len() > 0 ==> unique_by_src(flags).len() > 0,
    decreases flags.len(),
{
    let kept = unique_by_src(flags);
    if flags.len() > 0 {
        let n = flags.len() - 1;
        let front = flags.drop_last();
        let front_kept = unique_by_src(front);
        lemma_unique_by_src(front);
        assert forall|j: int| 0 <= j < front.len() implies front[j] == flags[j] by {}
        if seen_before(flags, n) {
            let earlier = choose|j: int| 0 <= j < n && (#[trigger] flags[j]).src == flags[n].src;
            assert forall|k: int| 0 <= k < kept.len() implies exists|j: int|
                0 <= j < flags.len() && #[trigger] flags[j] == (#[trigger] kept[k]) by {
                let j = choose|j: int|
                    0 <= j < front.len() && #[trigger] front[j] == (#[trigger] front_kept[k]);
                assert(flags[j] == kept[k]);
            }
            assert forall|j: int| 0 <= j < flags.len() implies exists|k: int|
                0 <= k < kept.len() && (#[trigger] kept[k]).src == (#[trigger] flags[j]).src by {
                let from = if j == n {
                    earlier
                } else {
                    j
                };
                assert(front[from].src == flags[j].src);
                let k = choose|k: int|
                    0 <= k < front_kept.len() && (#[trigger] front_kept[k]).src == (
                    #[trigger] front[from]).src;
                assert(kept[k].src == flags[j].src);
            }
        } else {
            assert(kept == front_kept.push(flags[n]));
            assert forall|k: int| 0 <= k < kept.len() implies exists|j: int|
                0 <= j < flags.len() && #[trigger] flags[j] == (#[trigger] kept[k]) by {
                if k < front_kept.len() {
                    let j = choose|j: int|
                        0 <= j < front.len() && #[trigger] front[j] == (#[trigger] front_kept[k]);
                    assert(flags[j] == kept[k]);
                } else {
                    assert(flags[n] == kept[k]);
                }
            }
            assert forall|j: int| 0 <= j < flags.len() implies exists|k: int|
                0 <= k < kept.len() && (#[trigger] kept[k]).src == (#[trigger] flags[j]).src by {
                if j == n {
                    assert(kept[front_kept.len() as int].src == flags[j].src);
                } else {
                    let k = choose|k: int|
                        0 <= k < front_kept.len() && (#[trigger] front_kept[k]).src == (
                        #[trigger] front[j]).src;
                    assert(kept[k].src == flags[j].src);
                }
            }
            assert forall|a: int, b: int| 0 <= a < b < kept.len() implies (#[trigger] kept[a]).src
                != (#[trigger] kept[b]).src by {
                if b < front_kept.len() {
                    assert(front_kept[a].src != front_kept[b].src);
                } else {
                    let j = choose|j: int|
                        0 <= j < front.len() && #[trigger] front[j] == (#[trigger] front_kept[a]);
                    assert(flags[j].src == kept[a].src);
                    assert(!seen_before(flags, n));
                }
            }
        }
    }
}

/// The flags of `flags` whose image no earlier flag of the list has, in
/// their order.
pub fn unique_flags(flags: &Vec<Flag>) -> (r: Vec<Flag>)
    ensures
        flag_views(r@) == unique_by_src(flag_views(flags@)),
        distinct_by_src(flag_views(r@)),
        flags@.len() > 0 ==> r@.len() > 0,
{
    let ghost all = flag_views(flags@);
    let mut seen: StringMap<bool> = StringMap::new();
    let mut kept: Vec<Flag> = Vec::new();
    let mut i: usize = 0;
    assert(all.take(0) =~= Seq::<FlagView>::empty());
    assert(flag_views(kept@) =~= Seq::<FlagView>::empty());
    while i < flags.len()
        invariant
            i <= flags@.len(),
            all == flag_views(flags@),
            flag_views(kept@) == unique_by_src(all.take(i as int)),
            forall|k: Seq<char>|
                seen@.contains_key(k) <==> exists|j: int| 0 <= j < i && (#[trigger] all[j]).src == k,
        decreases flags@.len() - i,
    {
        let flag = &flags[i];
        let ghost before = all.take(i as int);
        let ghost upto = all.take(i + 1);
        let ghost kept_before = kept@;
        proof {
            assert(upto.drop_last() =~= before);
            assert(upto.last() == flag@);
            if seen@.contains_key(flag.src@) {
                let j = choose|j: int| 0 <= j < i && (#[trigger] all[j]).src == flag.src@;
                assert(upto[j].src == upto[i as int].src);
                assert(seen_before(upto, i as int));
            }
            if seen_before(upto, i as int) {
                let j = choose|j: int| 0 <= j < i && (#[trigger] upto[j]).src == upto[i as int].src;
                assert(all[j].src == flag.src@);
            }
        }
        let first = seen.insert(flag.src.clone(), true).is_none();
        if first {
            kept.push(flag.clone());
            assert(flag_views(kept@) =~= flag_views(kept_before).push(flag@));
        }
        proof {
            assert forall|k: Seq<char>| seen@.contains_key(k) <==> exists|j: int|
                0 <= j < i + 1 && (#[trigger] all[j]).src == k by {
                if k == flag.src@ {
                    assert(all[i as int].src == k);
                }
                if exists|j: int| 0 <= j < i + 1 && (#[trigger] all[j]).src == k {
                    let j = choose|j: int| 0 <= j < i + 1 && (#[trigger] all[j]).src == k;
                    if j < i {
                        assert(all[j].src == k);
                    }
                }
            }
        }
        i += 1;
    }
    proof {
        assert(all.take(i as int) =~= all);
        lemma_unique_by_src(all);
    }
    kept
}

/// The entry made of a name, the link of its article as the document
/// gives it, and the flags found beside it. Flags that repeat the image of
/// an earlier one are left out. Without any flag there is no entry.
pub fn make_entry(title: String, href: String, flags: &Vec<Flag>) -> (r: Option<Entry>)
    ensures
        entry_view(r) == entry_of_parts(Some(title@), Some(href@), flag_views(flags@)),
        r matches Some(entry) ==> entry_ok(entry@),
{
    let kept = unique_flags(flags);
    assert(flag_views(kept@).len() == kept@.len());
    assert(flag_views(flags@).len() == flags@.len());
    if kept.len() == 0 {
        None
    } else {
        let mut link = String::from_str("https://en.wikipedia.org");
        link.append(href.as_str());
        assert(link@ == link_prefix() + href@);
        assert(link@.subrange(0, link_prefix().len() as int) =~= link_prefix());
        Some(Entry { title, link, flags: kept })
    }
}

/// The entry made of what was found in a list item: the text of its first
/// link, the target of that link, and the flags in it. Link, target and at
/// least one flag must be there.
pub fn entry_from_parts(title: Option<String>, href: Option<String>, flags: &Vec<Flag>) -> (r:
    Option<Entry>)
    ensures
        entry_view(r) == entry_of_parts(text_view(title), text_view(href), flag_views(flags@)),
        r matches Some(entry) ==> entry_ok(entry@),
{
    match (title, href) {
        (Some(title), Some(href)) => make_entry(title, href, flags),
        _ => None,
    }
}

/// The first of the elements that were found, if any was.
pub fn first_of<'a>(found: &Vec<ElementRef<'a>>) -> (r: Option<ElementRef<'a>>)
    ensures
        r == first_among(found@),
{
    if found.len() > 0 {
        Some(found[0])
    } else {
        None
    }
}

/// The elements below `element` that match `css`; none where `css` is no
/// selector.
fn all_matches<'a>(element: &ElementRef<'a>, css: &str) -> (r: Vec<ElementRef<'a>>)
    ensures
        r@ == all_below(*element, css@),
{
    match parse_selector(css) {
        Some(selector) => select_in_element(element, &selector),
        None => Vec::new(),
    }
}

/// The first element below `element` that matches `css`, if any.
fn first_match<'a>(element: &ElementRef<'a>, css: &str) -> (r: Option<ElementRef<'a>>)
    ensures
        r == first_below(*element, css@),
{
    first_of(&all_matches(element, css))
}

/// The attribute `name` of the first element below `element` that matches
/// `css`, if there is such an element and it has the attribute.
fn first_attribute(element: &ElementRef<'_>, css: &str, name: &str) -> (r: Option<String>)
    ensures
        text_view(r) == first_attribute_below(*element, css@, name@),
{
    match first_match(element, css) {
        Some(found) => attribute(&found, name),
        None => None,
    }
}

/// The flag that the element `flag` shows: the title and the target of its
/// first link and the source of its first image. All three must be there.
pub fn scrape_flag(flag: ElementRef<'_>) -> (r: Option<Flag>)
    ensures
        flag_view(r) == flag_of(flag),
{
    let title = first_attribute(&flag, "a", "title");
    let src = first_attribute(&flag, "img", "src");
    let link = first_attribute(&flag, "a", "href");
    flag_from_parts(title, src, link)
}

/// The flags that the elements of `icons` show, in their order; an element
/// that shows none is passed over.
pub fn scrape_flags(icons: &Vec<ElementRef<'_>>) -> (r: Vec<Flag>)
    ensures
        flag_views(r@) == flags_among(icons@),
{
    let mut flags: Vec<Flag> = Vec::new();
    let mut i: usize = 0;
    assert(icons@.take(0) =~= Seq::empty());
    assert(flag_views(flags@) =~= Seq::empty());
    while i < icons.len()
        invariant
            i <= icons@.len(),
            flag_views(flags@) == flags_among(icons@.take(i as int)),
        decreases icons@.len() - i,
    {
        let ghost before = flags@;
        proof {
            let upto = icons@.take(i + 1);
            assert(upto.drop_last() =~= icons@.take(i as int));
            assert(upto.last() == icons@[i as int]);
        }
        match scrape_flag(icons[i]) {
            Some(flag) => {
                flags.push(flag);
                assert(flag_views(flags@) =~= flag_views(before).push(flag@));
            },
            None => {},
        }
        i += 1;
    }
    assert(icons@.take(i as int) =~= icons@);
    flags
}

/// The name that the list item `item` shows: the text below its first
/// link, without the white space at its ends.
fn scrape_title(item: &ElementRef<'_>) -> (r: Option<String>)
    ensures
        text_view(r) == title_of(*item),
        r matches Some(title) ==> title_from_link(*item, title@),
{
    match first_match(item, "a") {
        Some(anchor) => {
            let text = text_of(&anchor);
            Some(trim(text.as_str()).to_owned())
        },
        None => None,
    }
}

/// The entry that the list item `item` shows: the text of its first link
/// as the name, the target of that link as the article, and the flags in
/// it. An item without a link, without a target or without a flag gives
/// no entry.
pub fn scrape_entry(item: ElementRef<'_>) -> (r: Option<Entry>)
    ensures
        entry_view(r) == entry_of(item),
        r matches Some(entry) ==> entry_ok(entry@) && title_from_link(item, entry@.title),
{
    let title = scrape_title(&item);
    let href = first_attribute(&item, "a", "href");
    let flags = scrape_flags(&all_matches(&item, ".flagicon"));
    entry_from_parts(title, href, &flags)
}

/// Every entry of the list is as `entry_ok` says.
pub open spec fn entries_ok(entries: Seq<Entry>) -> bool {
    forall|i: int| 0 <= i < entries.len() ==> entry_ok(#[trigger] entries[i]@)
}

/// The entries that the list items `items` show, in their order; an item
/// that shows none is passed over.
pub fn scrape_items(items: &Vec<ElementRef<'_>>) -> (r: Vec<Entry>)
    ensures
        entry_views(r@) == entries_among(items@),
        entries_ok(r@),
{
    let mut entries: Vec<Entry> = Vec::new();
    let mut i: usize = 0;
    assert(items@.take(0) =~= Seq::empty());
    assert(entry_views(entries@) =~= Seq::empty());
    while i < items.len()
        invariant
            i <= items@.len(),
            entry_views(entries@) == entries_among(items@.take(i as int)),
            entries_ok(entries@),
        decreases items@.len() - i,
    {
        let ghost before = entries@;
        proof {
            let upto = items@.take(i + 1);
            assert(upto.drop_last() =~= items@.take(i as int));
            assert(upto.last() == items@[i as int]);
        }
        match scrape_entry(items[i]) {
            Some(entry) => {
                entries.push(entry);
                assert(entry_views(entries@) =~= entry_views(before).push(entry@));
            },
            None => {},
        }
        i += 1;
    }
    assert(items@.take(i as int) =~= items@);
    entries
}

/// The list items of the article's body in `document`.
fn select_items<'a>(document: &'a Html) -> (r: Vec<ElementRef<'a>>)
    ensures
        r@ == items_in(*document),
{
    match parse_selector(".mw-parser-output ul > li") {
        Some(selector) => select_in_document(document, &selector),
        None => Vec::new(),
    }
}

/// The entries that the document `text` shows, in the order in which its
/// list items are found: one for each list item of the article's body that
/// shows one. The result is never `None`.
pub fn scrape_entries(text: &String) -> (r: Option<Vec<Entry>>)
    ensures
        r matches Some(entries) && entry_views(entries@) == entries_in(text@) && entries_ok(
            entries@,
        ),
{
    let document = parse_document(text.as_str());
    let items = select_items(&document);
    Some(scrape_items(&items))
}

/// What `entry_of_parts` makes is as `entry_ok` says.
proof fn lemma_entry_of_parts(
    title: Option<Seq<char>>,
    href: Option<Seq<char>>,
    flags: Seq<FlagView>,
)
    ensures
        entry_of_parts(title, href, flags) matches Some(entry) ==> entry_ok(entry),
{
    if let Some(entry) = entry_of_parts(title, href, flags) {
        lemma_unique_by_src(flags);
        assert(entry.link.subrange(0, link_prefix().len() as int) =~= link_prefix());
    }
}

/// Every entry that a list of items shows has a flag, flags that differ in
/// their images, and an address as its link; and the items show no more
/// entries than there are items.
pub proof fn law_shown_entries_are_well_formed(items: Seq<ElementRef<'static>>)
    ensures
        entries_among(items).len() <= items.len(),
        forall|i: int|
            0 <= i < entries_among(items).len() ==> entry_ok(#[trigger] entries_among(items)[i]),
    decreases items.len(),
{
    if items.len() > 0 {
        let item = items.last();
        law_shown_entries_are_well_formed(items.drop_last());
        lemma_entry_of_parts(
            title_of(item),
            first_attribute_below(item, "a"@, "href"@),
            flags_among(all_below(item, ".flagicon"@)),
        );
    }
}

/// Every entry that a document shows has a flag, flags that differ in
/// their images, and an address as its link, whatever the document is.
pub proof fn law_document_entries_are_well_formed(text: Seq<char>)
    ensures
        forall|i: int|
            0 <= i < entries_in(text).len() ==> entry_ok(#[trigger] entries_in(text)[i]),
{
    law_shown_entries_are_well_formed(items_in(document_of(text)));
}

/// What to do to get the list of names.
#[derive(Debug, PartialEq, Eq)]
pub enum NamesStep {
    /// The document was in the cache: here are its entries.
    Ready(Vec<Entry>),
    /// Fetch this address and hand the text to [`ww2_names_fetched`].
    Fetch(String),
}

/// The list of names as far as the cache can give it: the entries of the
/// cached document where there is one, and else the address to fetch.
pub fn ww2_names(cache: &AppCache) -> (r: NamesStep)
    ensures
        match r {
            NamesStep::Ready(entries) => {
                &&& html_lookup(cache@, names_url()) matches Some(text) && entry_views(entries@)
                    == entries_in(text)
                &&& entries_ok(entries@)
            },
            NamesStep::Fetch(url) => html_lookup(cache@, names_url()).is_none() && url@
                == names_url(),
        },
{
    let url = String::from_str(
        "https://en.wikipedia.org/wiki/List_of_World_War_II_military_operations",
    );
    match cache.get_html(url.clone()) {
        Some(text) => match scrape_entries(&text) {
            Some(entries) => NamesStep::Ready(entries),
            None => NamesStep::Ready(Vec::new()),
        },
        None => NamesStep::Fetch(url),
    }
}

/// The list of names from the document `text` that was fetched just now;
/// the document goes into the cache for the next time.
pub fn ww2_names_fetched(cache: &mut AppCache, text: String) -> (r: Vec<Entry>)
    ensures
        final(cache)@ == old(cache)@.insert(names_url(), CacheEntry::Html(text@)),
        entry_views(r@) == entries_in(text@),
        entries_ok(r@),
{
    let url = String::from_str(
        "https://en.wikipedia.org/wiki/List_of_World_War_II_military_operations",
    );
    let entries = match scrape_entries(&text) {
        Some(entries) => entries,
        None => Vec::new(),
    };
    cache.set_html(url, text);
    entries
}

} // verus!
