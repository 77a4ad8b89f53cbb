use crate::error::ScrapeError;
use crate::item::{
    extract, resolved_link, resolved_title, ComponentView, ShopItem, ShopItemComponent,
    ShopItemView,
};
use crate::text::{contains_token, decimal, decimal_text, has_token};
use vstd::prelude::*;
use vstd::string::StringExecFns;

verus! {

/// Seconds that a page is given to settle after each scroll.
pub const SETTLE_SECS: u64 = 1;

/// Number of times a page is scrolled to its bottom before it is read.
pub const SCROLL_ROUNDS: usize = 2;

/// One thing that the page session is asked to do while a page loads.
#[derive(Clone, Copy, Debug, PartialEq, Eq, Structural)]
pub enum LoadAction {
    /// Scroll to the bottom of the page, so that it fetches what it loads
    /// lazily.
    ScrollToBottom,
    /// Wait for the page to settle.
    Settle { secs: u64 },
    /// Find the pagination control and scroll it into view.
    RevealPagination,
}

/// What brings a freshly opened page to rest: two rounds of scrolling to the
/// bottom and letting the page settle, then a look at the pagination control.
pub open spec fn load_plan() -> Seq<LoadAction> {
    seq![
        LoadAction::ScrollToBottom,
        LoadAction::Settle { secs: SETTLE_SECS },
        LoadAction::ScrollToBottom,
        LoadAction::Settle { secs: SETTLE_SECS },
        LoadAction::RevealPagination,
    ]
}

/// The actions that load a page, in the order in which the session has to
/// carry them out. The first one that fails ends the loading.
pub fn load_elements() -> (plan: Vec<LoadAction>)
    ensures
        plan@ == load_plan(),
{
    let mut plan: Vec<LoadAction> = Vec::new();
    let mut round: usize = 0;
    while round < SCROLL_ROUNDS
        invariant
            round <= SCROLL_ROUNDS,
            plan@ == load_plan().take(2 * round),
        decreases SCROLL_ROUNDS - round,
    {
        plan.push(LoadAction::ScrollToBottom);
        plan.push(LoadAction::Settle { secs: SETTLE_SECS });
        round = round + 1;
    }
    plan.push(LoadAction::RevealPagination);
    plan
}

/// Address of page `page` of a category.
pub open spec fn page_url(category: Seq<char>, page: nat) -> Seq<char> {
    category + "/?pg="@ + decimal(page)
}

/// The address that the session has to open to show page `page` of
/// `category`. No page number is refused.
pub fn goto_page(category: &str, page: u8) -> (url: String)
    ensures
        url@ == page_url(category@, page as nat),
{
    let mut url = String::from_str(category);
    url.append("/?pg=");
    let number = decimal_text(page as u32);
    url.append(number.as_str());
    url
}

/// Something that the extraction of a page has to tell while it goes on.
#[derive(Debug, Clone, PartialEq, Eq)]
pub enum Notice {
    /// An entry was reached and its title resolved: its running number over
    /// the whole run, and the title.
    Entry { number: u32, title: String },
    /// The listing query failed, so the page has no entries.
    NoEntries,
}

/// A notice as plain values.
pub enum NoticeView {
    Entry { number: nat, title: Seq<char> },
    NoEntries,
}

impl View for Notice {
    type V = NoticeView;

    open spec fn view(&self) -> NoticeView {
        match self {
            Notice::Entry { number, title } => NoticeView::Entry {
                number: *number as nat,
                title: title@,
            },
            Notice::NoEntries => NoticeView::NoEntries,
        }
    }
}

/// The line that a notice is shown as.
pub open spec fn notice_text(notice: NoticeView) -> Seq<char> {
    match notice {
        NoticeView::Entry { number, title } => decimal(number) + ": Shop item `"@ + title + "`"@,
        NoticeView::NoEntries => "Failed to find shop items!"@,
    }
}

impl Notice {
    /// The line to show for this notice.
    pub fn text(&self) -> (line: String)
        ensures
            line@ == notice_text(self@),
    {
        match self {
            Notice::Entry { number, title } => {
                let mut line = decimal_text(*number);
                line.append(": Shop item `");
                line.append(title.as_str());
                line.append("`");
                line
            },
            Notice::NoEntries => String::from_str("Failed to find shop items!"),
        }
    }
}

/// What a listing query found, as plain values: the entries in document
/// order, or nothing where the query failed.
pub open spec fn listing_of(found: Option<Vec<ShopItemComponent>>) -> Option<Seq<ComponentView>> {
    match found {
        Some(elems) => Some(elems@.map_values(|c: ShopItemComponent| c@)),
        None => None,
    }
}

/// The entries of a listing; a query that failed found none.
pub open spec fn entries_of(listing: Option<Seq<ComponentView>>) -> Seq<ComponentView> {
    match listing {
        Some(entries) => entries,
        None => Seq::empty(),
    }
}

/// Whether every entry has a record.
pub open spec fn all_extract(entries: Seq<ComponentView>) -> bool {
    forall|i: int| 0 <= i < entries.len() ==> extract(#[trigger] entries[i]) is Ok
}

/// Whether entry `k` is the first one that has no record.
pub open spec fn is_first_failure(entries: Seq<ComponentView>, k: int) -> bool {
    &&& 0 <= k < entries.len()
    &&& extract(entries[k]) is Err
    &&& forall|i: int| 0 <= i < k ==> extract(#[trigger] entries[i]) is Ok
}

/// Number of entries that the extraction of a page gets to: all of them, or
/// those up to and including the first one that has no record.
pub open spec fn attempted(entries: Seq<ComponentView>) -> nat {
    if all_extract(entries) {
        entries.len()
    } else {
        (choose|k: int| is_first_failure(entries, k)) as nat + 1
    }
}

/// Number of entries that the extraction of a page gives notice of: those it
/// gets to, but for the last of them where that one has no title.
pub open spec fn announced(entries: Seq<ComponentView>) -> nat {
    let reached = attempted(entries);
    if reached > 0 && resolved_title(entries[reached - 1]) is None {
        (reached - 1) as nat
    } else {
        reached
    }
}

/// The notice of entry `i` of a page, when `seen` entries were seen before
/// the page.
pub open spec fn entry_notice(entries: Seq<ComponentView>, seen: nat, i: int) -> NoticeView {
    NoticeView::Entry {
        number: (seen + i + 1) as nat,
        title: match resolved_title(entries[i]) {
            Some(title) => title,
            None => arbitrary(),
        },
    }
}

/// The notices that the extraction of a page gives, in order, when `seen`
/// entries were seen before it: one for each entry it gets to and finds a
/// title for, or the one that says that the listing query failed.
pub open spec fn notices_of(listing: Option<Seq<ComponentView>>, seen: nat) -> Seq<NoticeView> {
    match listing {
        Some(entries) => Seq::new(announced(entries), |i: int| entry_notice(entries, seen, i)),
        None => seq![NoticeView::NoEntries],
    }
}

/// The records of a page in document order, one for each entry.
pub open spec fn records_of(entries: Seq<ComponentView>) -> Seq<ShopItemView> {
    Seq::new(
        entries.len(),
        |i: int|
            match extract(entries[i]) {
                Ok(record) => record,
                Err(_) => arbitrary(),
            },
    )
}

/// What the extraction of a page yields: the records of all its entries, or
/// the failure of the first entry that has no record.
pub open spec fn page_yield(entries: Seq<ComponentView>) -> Result<Seq<ShopItemView>, ScrapeError> {
    if all_extract(entries) {
        Ok(records_of(entries))
    } else {
        Err(ScrapeError::IdentityResolution)
    }
}

/// The records as plain values.
pub open spec fn views_of(items: Seq<ShopItem>) -> Seq<ShopItemView> {
    items.map_values(|item: ShopItem| item@)
}

/// The notices as plain values.
pub open spec fn notice_views(notices: Seq<Notice>) -> Seq<NoticeView> {
    notices.map_values(|notice: Notice| notice@)
}

/// An entry without a record that comes after none other is the one that
/// `attempted` stops at.
pub proof fn lemma_first_failure(entries: Seq<ComponentView>, k: int)
    requires
        is_first_failure(entries, k),
    ensures
        !all_extract(entries),
        attempted(entries) == k + 1,
{
}

/// Before or at an entry that has no record stands the first such entry.
proof fn lemma_least_failure(entries: Seq<ComponentView>, k: int)
    requires
        0 <= k < entries.len(),
        extract(entries[k]) is Err,
    ensures
        exists|j: int| is_first_failure(entries, j) && j <= k,
    decreases k,
{
    if !is_first_failure(entries, k) {
        let i = choose|i: int| 0 <= i < k && !(extract(#[trigger] entries[i]) is Ok);
        lemma_least_failure(entries, i);
    }
}

/// A page on which an entry lacks its title or its link yields no record at
/// all but the error of that lack, however many entries it has and whatever
/// was seen before; and the extraction does not get past that entry.
pub proof fn lemma_page_needs_every_identity(entries: Seq<ComponentView>, k: int)
    requires
        0 <= k < entries.len(),
        resolved_title(entries[k]) is None || resolved_link(entries[k]) is None,
    ensures
        page_yield(entries) == Err::<Seq<ShopItemView>, ScrapeError>(
            ScrapeError::IdentityResolution,
        ),
        attempted(entries) <= k + 1,
{
    lemma_least_failure(entries, k);
    let j = choose|j: int| is_first_failure(entries, j) && j <= k;
    lemma_first_failure(entries, j);
}

/// Extracts the records of a page.
///
/// `found` is what the listing query returned. A query that failed is no
/// reason to end the run: the page then yields nothing, and a notice says so.
/// The entries are taken in document order. For each, `total_count` goes up
/// by one, then a notice with that number and the entry's title is given if
/// the title resolves, then the record is extracted. The first entry that has
/// no record ends the extraction with its error, and the entries after it are
/// neither counted nor given notice of.
pub fn fetch_all_items(
    found: Option<Vec<ShopItemComponent>>,
    total_count: &mut u32,
    notices: &mut Vec<Notice>,
) -> (res: Result<Vec<ShopItem>, ScrapeError>)
    requires
        *old(total_count) + entries_of(listing_of(found)).len() <= u32::MAX,
    ensures
        *final(total_count) == *old(total_count) + attempted(entries_of(listing_of(found))),
        notice_views(final(notices)@) == notice_views(old(notices)@) + notices_of(
            listing_of(found),
            *old(total_count) as nat,
        ),
        res is Ok <==> all_extract(entries_of(listing_of(found))),
        res matches Ok(items) ==> {
            &&& items@.len() == entries_of(listing_of(found)).len()
            &&& views_of(items@) == records_of(entries_of(listing_of(found)))
        },
        res matches Err(e) ==> e == ScrapeError::IdentityResolution,
        forall|k: int| #[trigger]
            is_first_failure(entries_of(listing_of(found)), k) ==> *final(total_count) == *old(
                total_count,
            ) + k + 1,
{
    let ghost entries = entries_of(listing_of(found));
    let ghost before = *total_count;
    let ghost told = notice_views(notices@);
    let mut items: Vec<ShopItem> = Vec::new();
    match found {
        None => {
            notices.push(Notice::NoEntries);
        },
        Some(elems) => {
            assert(notice_views(notices@) =~= told + Seq::new(
                0,
                |j: int| entry_notice(entries, before as nat, j),
            ));
            for elem in it: elems
                invariant
                    it.seq().map_values(|c: ShopItemComponent| c@) == entries,
                    entries == entries_of(listing_of(found)),
                    found == Some(elems),
                    before == *old(total_count),
                    told == notice_views(old(notices)@),
                    before + entries.len() <= u32::MAX,
                    *total_count == before + it.index(),
                    items@.len() == it.index(),
                    forall|i: int|
                        0 <= i < it.index() ==> extract(#[trigger] entries[i]) == Ok::<
                            ShopItemView,
                            ScrapeError,
                        >(items@[i]@),
                    notice_views(notices@) == told + Seq::new(
                        it.index() as nat,
                        |j: int| entry_notice(entries, before as nat, j),
                    ),
            {
                let ghost k = it.index();
                let ghost told_here = notice_views(notices@);
                *total_count = *total_count + 1;
                let titled = match elem.get_title() {
                    Ok(title) => {
                        let notice = Notice::Entry { number: *total_count, title };
                        notices.push(notice);
                        assert(notice_views(notices@) =~= told_here.push(notice@));
                        assert(notice_views(notices@) =~= told + Seq::new(
                            (k + 1) as nat,
                            |j: int| entry_notice(entries, before as nat, j),
                        ));
                        true
                    },
                    Err(_) => false,
                };
                match ShopItem::from(elem) {
                    Ok(item) => {
                        items.push(item);
                    },
                    Err(e) => {
                        proof {
                            lemma_first_failure(entries, k);
                            assert(announced(entries) == if titled {
                                k + 1
                            } else {
                                k
                            });
                            assert(notice_views(notices@) =~= told + notices_of(
                                Some(entries),
                                before as nat,
                            ));
                        }
                        return Err(e);
                    },
                }
            }
        },
    }
    Ok(items)
}

/// Class token that marks a pagination control as disabled.
pub open spec fn disabled_marker() -> Seq<char> {
    "a-disabled"@
}

/// Whether a pagination control with the given class attribute leads on: it
/// does unless one of its class tokens is the disabled marker. A control
/// without a class attribute leads on.
pub open spec fn has_next_page(class_name: Option<Seq<char>>) -> bool {
    match class_name {
        Some(class) => !has_token(class, disabled_marker()),
        None => true,
    }
}

/// Tells from the class attribute of the control that leads to the last page
/// whether there is a page after the one shown.
pub fn find_next_page(class_name: Option<&str>) -> (next: bool)
    ensures
        next == has_next_page(
            match class_name {
                Some(class) => Some(class@),
                None => None,
            },
        ),
{
    match class_name {
        Some(class) => !contains_token(class, "a-disabled"),
        None => true,
    }
}

} // verus!
