use crate::error::ScrapeError;
use crate::text::{chars_of, first_chars, has_part_at, leading, parse_count, read_count, starts_at};
use vstd::prelude::*;
use vstd::string::StringExecFns;

verus! {

/// Number of characters of the rating markup that make up the rating.
pub const RATING_WIDTH: usize = 3;

/// Origin that the link of a listing entry is resolved against.
pub open spec fn site_origin() -> Seq<char> {
    "https://www.amazon.com"@
}

/// The characters of a text that may be missing.
pub open spec fn text_of(text: Option<String>) -> Option<Seq<char>> {
    match text {
        Some(t) => Some(t@),
        None => None,
    }
}

/// What the page session found under one listing entry. Each field holds
/// what one lookup below the entry returned, and `None` where that lookup
/// failed.
#[derive(Debug, Clone)]
pub struct ShopItemComponent {
    /// Text of the title node.
    pub title: Option<String>,
    /// The `href` attribute of the entry's anchor.
    pub href: Option<String>,
    /// Inner markup of the rating node, such as `4.5 out of 5 stars`.
    pub rating: Option<String>,
    /// Text of the comment count node, such as `12,345`.
    pub comments: Option<String>,
}

/// A listing entry as plain text.
pub struct ComponentView {
    pub title: Option<Seq<char>>,
    pub href: Option<Seq<char>>,
    pub rating: Option<Seq<char>>,
    pub comments: Option<Seq<char>>,
}

impl View for ShopItemComponent {
    type V = ComponentView;

    open spec fn view(&self) -> ComponentView {
        ComponentView {
            title: text_of(self.title),
            href: text_of(self.href),
            rating: text_of(self.rating),
            comments: text_of(self.comments),
        }
    }
}

/// The title of an entry: the text of its title node, which must be there
/// and must not be empty.
pub open spec fn resolved_title(c: ComponentView) -> Option<Seq<char>> {
    match c.title {
        Some(t) => if t.len() > 0 {
            Some(t)
        } else {
            None
        },
        None => None,
    }
}

/// Whether an address begins at position `at` of `s`: one of the two schemes
/// of the web stands there.
pub open spec fn has_scheme_at(s: Seq<char>, at: int) -> bool {
    starts_at(s, at, "https://"@) || starts_at(s, at, "http://"@)
}

/// Whether `href` is a path on the site: it begins with a slash.
pub open spec fn is_site_relative(href: Seq<char>) -> bool {
    href.len() > 0 && href[0] == '/'
}

/// Whether `link` is the site origin with another address right behind it.
pub open spec fn doubles_origin(link: Seq<char>) -> bool {
    starts_at(link, 0, site_origin()) && has_scheme_at(link, site_origin().len() as int)
}

/// Whether `link` is an absolute address: it begins with a scheme, and it is
/// not the site origin with another address right behind it.
pub open spec fn is_absolute(link: Seq<char>) -> bool {
    has_scheme_at(link, 0) && !doubles_origin(link)
}

/// The link that an `href` stands for. A path on the site is put behind the
/// site origin. An absolute address is the link as it is. Any other `href`,
/// the empty one and a path without a leading slash among them, stands for no
/// link: nothing says what it is relative to.
pub open spec fn link_of(href: Seq<char>) -> Option<Seq<char>> {
    if is_site_relative(href) {
        Some(site_origin() + href)
    } else if is_absolute(href) {
        Some(href)
    } else {
        None
    }
}

/// The link of an entry: what the `href` of its anchor stands for.
pub open spec fn resolved_link(c: ComponentView) -> Option<Seq<char>> {
    match c.href {
        Some(href) => link_of(href),
        None => None,
    }
}

/// A path on the site, put behind the site origin, is an absolute address.
pub proof fn lemma_site_link_is_absolute(href: Seq<char>)
    requires
        is_site_relative(href),
    ensures
        is_absolute(site_origin() + href),
{
    reveal_strlit("https://www.amazon.com");
    reveal_strlit("https://");
    reveal_strlit("http://");
    let link = site_origin() + href;
    let at = site_origin().len() as int;
    assert(link.subrange(0, 8) =~= "https://"@);
    assert(link[at] == '/');
    if starts_at(link, at, "https://"@) {
        assert(link.subrange(at, at + 8)[0] == 'h');
    }
    if starts_at(link, at, "http://"@) {
        assert(link.subrange(at, at + 7)[0] == 'h');
    }
}

/// Every link is an absolute address.
pub proof fn lemma_links_are_absolute(href: Seq<char>)
    ensures
        link_of(href) matches Some(link) ==> is_absolute(link),
{
    if is_site_relative(href) {
        lemma_site_link_is_absolute(href);
    }
}

/// The rating of an entry: the leading characters of the rating markup.
pub open spec fn resolved_rating(c: ComponentView) -> Option<Seq<char>> {
    match c.rating {
        Some(markup) => Some(leading(markup, RATING_WIDTH as nat)),
        None => None,
    }
}

/// The comment count of an entry, where its text can be read as one.
pub open spec fn resolved_comments(c: ComponentView) -> Option<u32> {
    match c.comments {
        Some(text) => parse_count(text),
        None => None,
    }
}

/// A record as plain values.
pub struct ShopItemView {
    pub title: Seq<char>,
    pub link: Seq<char>,
    pub rating: Seq<char>,
    pub comments: u32,
}

/// Whether a record can be told apart from others and followed: it has a
/// title, and its link is an absolute address.
pub open spec fn is_listing(r: ShopItemView) -> bool {
    r.title.len() > 0 && is_absolute(r.link)
}

/// The record of an entry. An entry without a title or without a link has
/// none; a missing rating is empty and a missing comment count is zero.
pub open spec fn extract(c: ComponentView) -> Result<ShopItemView, ScrapeError> {
    match (resolved_title(c), resolved_link(c)) {
        (Some(title), Some(link)) => Ok(
            ShopItemView {
                title,
                link,
                rating: match resolved_rating(c) {
                    Some(rating) => rating,
                    None => Seq::empty(),
                },
                comments: match resolved_comments(c) {
                    Some(count) => count,
                    None => 0,
                },
            },
        ),
        _ => Err(ScrapeError::IdentityResolution),
    }
}

/// Tells whether an address begins at position `at` of `link`.
pub fn scheme_at(link: &[char], at: usize) -> (found: bool)
    ensures
        found == has_scheme_at(link@, at as int),
{
    let secure = chars_of("https://");
    let plain = chars_of("http://");
    has_part_at(link, at, secure.as_slice()) || has_part_at(link, at, plain.as_slice())
}

/// Tells whether `link` is an absolute address.
pub fn is_absolute_link(link: &[char]) -> (absolute: bool)
    ensures
        absolute == is_absolute(link@),
{
    let origin = chars_of("https://www.amazon.com");
    let doubled = has_part_at(link, 0, origin.as_slice()) && scheme_at(link, origin.len());
    scheme_at(link, 0) && !doubled
}

impl ShopItemComponent {
    /// Returns item's title. An entry whose title node is missing or empty
    /// has none.
    pub fn get_title(&self) -> (res: Result<String, ScrapeError>)
        ensures
            match res {
                Ok(title) => resolved_title(self@) == Some(title@),
                Err(e) => resolved_title(self@) is None && e == ScrapeError::IdentityResolution,
            },
    {
        match &self.title {
            Some(text) => {
                if text.as_str().is_empty() {
                    Err(ScrapeError::IdentityResolution)
                } else {
                    Ok(text.clone())
                }
            },
            None => Err(ScrapeError::IdentityResolution),
        }
    }

    /// Returns item's link. The `href` of the entry's anchor is put behind
    /// the site origin where it is a path on the site, and is the link as it
    /// is where it is an absolute address. An entry without that `href`, or
    /// with one of another kind, has no link.
    pub fn get_link(&self) -> (res: Result<String, ScrapeError>)
        ensures
            match res {
                Ok(link) => resolved_link(self@) == Some(link@) && is_absolute(link@),
                Err(e) => resolved_link(self@) is None && e == ScrapeError::IdentityResolution,
            },
            self.href matches Some(href) ==> {
                &&& is_site_relative(href@) ==> (res matches Ok(link) && link@ == site_origin()
                    + href@)
                &&& !is_site_relative(href@) && is_absolute(href@) ==> (res matches Ok(link)
                    && link@ == href@)
                &&& !is_site_relative(href@) && !is_absolute(href@) ==> res is Err
            },
    {
        match &self.href {
            Some(href) => {
                let chars = chars_of(href.as_str());
                proof {
                    lemma_links_are_absolute(href@);
                }
                if chars.len() > 0 && chars[0] == '/' {
                    Ok(String::from_str("https://www.amazon.com").concat(href.as_str()))
                } else if is_absolute_link(chars.as_slice()) {
                    Ok(href.clone())
                } else {
                    Err(ScrapeError::IdentityResolution)
                }
            },
            None => Err(ScrapeError::IdentityResolution),
        }
    }

    /// Returns item's rating: the first three characters of the rating
    /// markup, which cut `4.5 out of 5 stars` down to `4.5`. A shorter markup
    /// is the rating as it is.
    pub fn get_rating(&self) -> (res: Result<String, ScrapeError>)
        ensures
            match res {
                Ok(rating) => resolved_rating(self@) == Some(rating@),
                Err(e) => resolved_rating(self@) is None && e == ScrapeError::OptionalField,
            },
            self.rating matches Some(markup) ==> res matches Ok(rating) && {
                &&& markup@.len() >= RATING_WIDTH ==> rating@ == markup@.subrange(
                    0,
                    RATING_WIDTH as int,
                )
                &&& markup@.len() < RATING_WIDTH ==> rating@ == markup@
            },
    {
        match &self.rating {
            Some(markup) => Ok(first_chars(markup.as_str(), RATING_WIDTH)),
            None => Err(ScrapeError::OptionalField),
        }
    }

    /// Returns item's amount of comments: the text of the comment count
    /// node without its commas, read as a number.
    pub fn get_comments(&self) -> (res: Result<u32, ScrapeError>)
        ensures
            match res {
                Ok(count) => resolved_comments(self@) == Some(count),
                Err(e) => resolved_comments(self@) is None && e == ScrapeError::OptionalField,
            },
    {
        match &self.comments {
            Some(text) => match read_count(text.as_str()) {
                Some(count) => Ok(count),
                None => Err(ScrapeError::OptionalField),
            },
            None => Err(ScrapeError::OptionalField),
        }
    }
}

/// Shop item model: the record of one listing entry. It is made by
/// extraction alone and never changes.
#[derive(Debug, Clone, PartialEq, Eq)]
pub struct ShopItem {
    title: String,
    link: String,
    rating: String,
    comments: u32,
}

impl View for ShopItem {
    type V = ShopItemView;

    closed spec fn view(&self) -> ShopItemView {
        ShopItemView {
            title: self.title@,
            link: self.link@,
            rating: self.rating@,
            comments: self.comments,
        }
    }
}

/// The outcome of an extraction as plain values.
pub open spec fn outcome_of(res: Result<ShopItem, ScrapeError>) -> Result<
    ShopItemView,
    ScrapeError,
> {
    match res {
        Ok(item) => Ok(item@),
        Err(e) => Err(e),
    }
}

impl ShopItem {
    /// Convert from shop item component to shop item.
    ///
    /// The title and the link identify the item: where either cannot be
    /// resolved there is no item, and the title is looked at first. The
    /// rating and the amount of comments are optional: where one cannot be
    /// resolved, the rating is empty and the amount is zero.
    pub fn from(value: ShopItemComponent) -> (res: Result<Self, ScrapeError>)
        ensures
            outcome_of(res) == extract(value@),
            res is Ok <==> resolved_title(value@) is Some && resolved_link(value@) is Some,
            res matches Ok(item) ==> {
                &&& Some(item@.title) == resolved_title(value@)
                &&& Some(item@.link) == resolved_link(value@)
                &&& is_listing(item@)
            },
            res matches Err(e) ==> e == ScrapeError::IdentityResolution,
    {
        let title = match value.get_title() {
            Ok(title) => title,
            Err(e) => {
                return Err(e);
            },
        };
        let link = match value.get_link() {
            Ok(link) => link,
            Err(e) => {
                return Err(e);
            },
        };
        let rating = match value.get_rating() {
            Ok(rating) => rating,
            Err(_) => String::new(),
        };
        let comments: u32 = match value.get_comments() {
            Ok(count) => count,
            Err(_) => 0,
        };
        Ok(ShopItem { title, link, rating, comments })
    }

    /// The item's title.
    pub fn title(&self) -> (title: &String)
        ensures
            title@ == self@.title,
    {
        &self.title
    }

    /// The item's link.
    pub fn link(&self) -> (link: &String)
        ensures
            link@ == self@.link,
    {
        &self.link
    }

    /// The item's rating.
    pub fn rating(&self) -> (rating: &String)
        ensures
            rating@ == self@.rating,
    {
        &self.rating
    }

    /// The item's amount of comments.
    pub fn comments(&self) -> (count: u32)
        ensures
            count == self@.comments,
    {
        self.comments
    }
}

/// Every record has a title and an absolute link.
pub proof fn lemma_record_is_listing(c: ComponentView)
    ensures
        extract(c) matches Ok(record) ==> is_listing(record),
{
    if let Some(href) = c.href {
        lemma_links_are_absolute(href);
    }
}

/// An entry whose title and link resolve has a record, and the record
/// carries both as they were resolved, whatever its rating and its comment
/// count resolve to.
pub proof fn lemma_identity_carries(
    c: ComponentView,
    rating: Option<Seq<char>>,
    comments: Option<Seq<char>>,
)
    requires
        resolved_title(c) is Some,
        resolved_link(c) is Some,
    ensures
        extract(ComponentView { rating, comments, ..c }) matches Ok(record) && {
            &&& Some(record.title) == resolved_title(c)
            &&& Some(record.link) == resolved_link(c)
        },
{
}

/// An entry that lacks a title or a link has no record.
pub proof fn lemma_identity_needed(c: ComponentView)
    requires
        resolved_title(c) is None || resolved_link(c) is None,
    ensures
        extract(c) == Err::<ShopItemView, ScrapeError>(ScrapeError::IdentityResolution),
{
}

/// Extraction reads an entry and leaves it as it is: whenever it is run again
/// on the same entry, it comes to the same outcome.
pub proof fn lemma_extraction_repeats(
    entry: ShopItemComponent,
    first: Result<ShopItem, ScrapeError>,
    second: Result<ShopItem, ScrapeError>,
)
    requires
        outcome_of(first) == extract(entry@),
        outcome_of(second) == extract(entry@),
    ensures
        outcome_of(first) == outcome_of(second),
{
}

} // verus!
