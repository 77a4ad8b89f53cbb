//! Tests of the decisions of the scraping process.

use amazon_bestsellers::driver::{
  fetch_all_items, find_next_page, goto_page, load_elements, LoadAction, Notice,
};
use amazon_bestsellers::error::ScrapeError;
use amazon_bestsellers::item::ShopItemComponent;

fn good(title: &str, path: &str) -> ShopItemComponent {
  ShopItemComponent {
    title: Some(String::from(title)),
    href: Some(String::from(path)),
    rating: Some(String::from("4.2 out of 5 stars")),
    comments: Some(String::from("1,000")),
  }
}

fn untitled(path: &str) -> ShopItemComponent {
  ShopItemComponent { title: None, href: Some(String::from(path)), rating: None, comments: None }
}

fn unlinked(title: &str) -> ShopItemComponent {
  ShopItemComponent { title: Some(String::from(title)), href: None, rating: None, comments: None }
}

fn told(number: u32, title: &str) -> Notice {
  Notice::Entry { number, title: String::from(title) }
}

#[test]
fn page_addresses_carry_the_page_number() {
  assert_eq!(goto_page("https://example.com/cat", 3), "https://example.com/cat/?pg=3");
  assert_eq!(goto_page("https://example.com/cat", 1), "https://example.com/cat/?pg=1");
  assert_eq!(goto_page("https://example.com/cat", 12), "https://example.com/cat/?pg=12");
}

#[test]
fn no_page_number_is_refused() {
  assert_eq!(goto_page("https://example.com/cat", 0), "https://example.com/cat/?pg=0");
  assert_eq!(goto_page("https://example.com/cat", 255), "https://example.com/cat/?pg=255");
  assert_eq!(goto_page("", 7), "/?pg=7");
}

#[test]
fn page_addresses_keep_the_category_as_it_is() {
  assert_eq!(
    goto_page("https://www.amazon.com/gp/bestsellers/pc/11036071/", 2),
    "https://www.amazon.com/gp/bestsellers/pc/11036071//?pg=2"
  );
}

#[test]
fn loading_scrolls_twice_and_then_looks_for_the_pagination() {
  assert_eq!(
    load_elements(),
    vec![
      LoadAction::ScrollToBottom,
      LoadAction::Settle { secs: 1 },
      LoadAction::ScrollToBottom,
      LoadAction::Settle { secs: 1 },
      LoadAction::RevealPagination,
    ]
  );
}

#[test]
fn a_disabled_control_ends_the_pages() {
  assert!(!find_next_page(Some("a-disabled")));
  assert!(!find_next_page(Some("a-disabled a-last")));
  assert!(!find_next_page(Some("a-last a-disabled")));
  assert!(!find_next_page(Some("a-last\ta-disabled\n")));
}

#[test]
fn an_enabled_control_leads_on() {
  assert!(find_next_page(Some("a-last")));
  assert!(find_next_page(Some("")));
  assert!(find_next_page(Some("a-last a-normal")));
  assert!(find_next_page(Some("a-disabled-look")));
  assert!(find_next_page(Some("xa-disabled")));
}

#[test]
fn a_control_without_class_leads_on() {
  assert!(find_next_page(None));
}

#[test]
fn all_entries_of_a_page_are_extracted_in_order() {
  let mut total: u32 = 10;
  let mut notices: Vec<Notice> = Vec::new();
  let page = vec![good("A", "/dp/a"), good("B", "/dp/b"), good("C", "/dp/c")];
  let items = fetch_all_items(Some(page), &mut total, &mut notices).unwrap();
  assert_eq!(total, 13);
  assert_eq!(items.len(), 3);
  assert_eq!(items[0].title(), "A");
  assert_eq!(items[1].title(), "B");
  assert_eq!(items[2].title(), "C");
  assert_eq!(items[0].link(), "https://www.amazon.com/dp/a");
  assert_eq!(items[1].link(), "https://www.amazon.com/dp/b");
  assert_eq!(items[2].link(), "https://www.amazon.com/dp/c");
  assert_eq!(items[2].rating(), "4.2");
  assert_eq!(items[2].comments(), 1000);
  assert_eq!(notices, vec![told(11, "A"), told(12, "B"), told(13, "C")]);
}

#[test]
fn a_failed_listing_query_yields_an_empty_page() {
  let mut total: u32 = 4;
  let mut notices: Vec<Notice> = Vec::new();
  let items = fetch_all_items(None, &mut total, &mut notices).unwrap();
  assert!(items.is_empty());
  assert_eq!(total, 4);
  assert_eq!(notices, vec![Notice::NoEntries]);
}

#[test]
fn a_page_without_entries_yields_nothing() {
  let mut total: u32 = 4;
  let mut notices: Vec<Notice> = Vec::new();
  let items = fetch_all_items(Some(Vec::new()), &mut total, &mut notices).unwrap();
  assert!(items.is_empty());
  assert_eq!(total, 4);
  assert!(notices.is_empty());
}

#[test]
fn the_first_entry_without_title_ends_the_page() {
  let mut total: u32 = 0;
  let mut notices: Vec<Notice> = Vec::new();
  let page = vec![good("A", "/dp/a"), untitled("/dp/b"), good("C", "/dp/c"), untitled("/dp/d")];
  assert_eq!(
    fetch_all_items(Some(page), &mut total, &mut notices),
    Err(ScrapeError::IdentityResolution)
  );
  assert_eq!(total, 2);
  assert_eq!(notices, vec![told(1, "A")]);
}

#[test]
fn the_first_entry_without_link_ends_the_page() {
  let mut total: u32 = 100;
  let mut notices: Vec<Notice> = Vec::new();
  let page = vec![good("A", "/dp/a"), good("B", "/dp/b"), unlinked("C"), good("D", "/dp/d")];
  assert_eq!(
    fetch_all_items(Some(page), &mut total, &mut notices),
    Err(ScrapeError::IdentityResolution)
  );
  assert_eq!(total, 103);
  assert_eq!(notices, vec![told(101, "A"), told(102, "B"), told(103, "C")]);
}

#[test]
fn an_entry_that_fails_is_counted() {
  let mut total: u32 = 0;
  let mut notices: Vec<Notice> = Vec::new();
  assert_eq!(
    fetch_all_items(Some(vec![untitled("/dp/a")]), &mut total, &mut notices),
    Err(ScrapeError::IdentityResolution)
  );
  assert_eq!(total, 1);
  assert!(notices.is_empty());
}

#[test]
fn entries_with_poor_optional_fields_are_kept() {
  let mut total: u32 = 0;
  let mut notices: Vec<Notice> = Vec::new();
  let poor = ShopItemComponent {
    title: Some(String::from("B")),
    href: Some(String::from("/dp/b")),
    rating: None,
    comments: Some(String::from("many")),
  };
  let items =
    fetch_all_items(Some(vec![good("A", "/dp/a"), poor]), &mut total, &mut notices).unwrap();
  assert_eq!(total, 2);
  assert_eq!(items.len(), 2);
  assert_eq!(items[1].title(), "B");
  assert_eq!(items[1].rating(), "");
  assert_eq!(items[1].comments(), 0);
}

#[test]
fn the_counter_can_be_filled_to_its_end() {
  let mut total: u32 = u32::MAX - 2;
  let mut notices: Vec<Notice> = Vec::new();
  let page = vec![good("A", "/dp/a"), good("B", "/dp/b")];
  let items = fetch_all_items(Some(page), &mut total, &mut notices).unwrap();
  assert_eq!(items.len(), 2);
  assert_eq!(total, u32::MAX);
  assert_eq!(notices, vec![told(4294967294, "A"), told(4294967295, "B")]);
}

#[test]
fn notices_are_added_to_those_given_before() {
  let mut total: u32 = 0;
  let mut notices: Vec<Notice> = vec![told(7, "earlier")];
  fetch_all_items(Some(vec![good("A", "/dp/a")]), &mut total, &mut notices).unwrap();
  fetch_all_items(None, &mut total, &mut notices).unwrap();
  assert_eq!(notices, vec![told(7, "earlier"), told(1, "A"), Notice::NoEntries]);
}

#[test]
fn notices_are_shown_as_lines() {
  assert_eq!(told(1, "USB-C Hub").text(), "1: Shop item `USB-C Hub`");
  assert_eq!(told(4294967295, "").text(), "4294967295: Shop item ``");
  assert_eq!(told(120, "a `quoted` title").text(), "120: Shop item `a `quoted` title`");
  assert_eq!(Notice::NoEntries.text(), "Failed to find shop items!");
}

#[test]
fn an_entry_whose_href_stands_for_no_link_ends_the_page() {
  let mut total: u32 = 0;
  let mut notices: Vec<Notice> = Vec::new();
  let page = vec![good("A", "https://www.amazon.com/dp/a"), good("B", "dp/b"), good("C", "/dp/c")];
  assert_eq!(
    fetch_all_items(Some(page), &mut total, &mut notices),
    Err(ScrapeError::IdentityResolution)
  );
  assert_eq!(total, 2);
  assert_eq!(notices, vec![told(1, "A"), told(2, "B")]);
}

#[test]
fn absolute_and_relative_hrefs_stand_side_by_side() {
  let mut total: u32 = 0;
  let mut notices: Vec<Notice> = Vec::new();
  let page = vec![good("A", "https://www.amazon.com/dp/a"), good("B", "/dp/b")];
  let items = fetch_all_items(Some(page), &mut total, &mut notices).unwrap();
  assert_eq!(items[0].link(), "https://www.amazon.com/dp/a");
  assert_eq!(items[1].link(), "https://www.amazon.com/dp/b");
  assert_eq!(total, 2);
}
