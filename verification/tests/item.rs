//! Tests of the extraction of one record.

use amazon_bestsellers::error::ScrapeError;
use amazon_bestsellers::item::{is_absolute_link, scheme_at, ShopItem, ShopItemComponent};

fn text(value: &str) -> Option<String> {
  Some(String::from(value))
}

fn entry(
  title: Option<&str>,
  href: Option<&str>,
  rating: Option<&str>,
  comments: Option<&str>,
) -> ShopItemComponent {
  ShopItemComponent {
    title: title.map(String::from),
    href: href.map(String::from),
    rating: rating.map(String::from),
    comments: comments.map(String::from),
  }
}

#[test]
fn a_full_entry_gives_a_full_record() {
  let found = entry(
    Some("USB-C Hub, 7 in 1"),
    Some("/dp/B000123"),
    Some("4.5 out of 5 stars"),
    Some("12,345"),
  );
  let item = ShopItem::from(found).unwrap();
  assert_eq!(item.title(), "USB-C Hub, 7 in 1");
  assert_eq!(item.link(), "https://www.amazon.com/dp/B000123");
  assert_eq!(item.rating(), "4.5");
  assert_eq!(item.comments(), 12345);
}

#[test]
fn title_and_link_do_not_depend_on_rating_and_comments() {
  let ratings: [Option<&str>; 4] = [None, Some(""), Some("4.5 out of 5 stars"), Some("<b>")];
  let counts: [Option<&str>; 4] = [None, Some(""), Some("12,345"), Some("abc")];
  for rating in ratings {
    for count in counts {
      let item = ShopItem::from(entry(Some("Keyboard"), Some("/dp/K1"), rating, count)).unwrap();
      assert_eq!(item.title(), "Keyboard");
      assert_eq!(item.link(), "https://www.amazon.com/dp/K1");
    }
  }
}

#[test]
fn an_entry_without_title_has_no_record() {
  let found = entry(None, Some("/dp/B000123"), Some("4.5 out of 5 stars"), Some("12"));
  assert_eq!(ShopItem::from(found), Err(ScrapeError::IdentityResolution));
}

#[test]
fn an_entry_with_an_empty_title_has_no_record() {
  let found = entry(Some(""), Some("/dp/B000123"), Some("4.5 out of 5 stars"), Some("12"));
  assert_eq!(found.get_title(), Err(ScrapeError::IdentityResolution));
  assert_eq!(ShopItem::from(found), Err(ScrapeError::IdentityResolution));
}

#[test]
fn an_entry_without_link_has_no_record() {
  let found = entry(Some("Keyboard"), None, Some("4.5 out of 5 stars"), Some("12"));
  assert_eq!(ShopItem::from(found), Err(ScrapeError::IdentityResolution));
}

#[test]
fn an_entry_without_title_and_link_has_no_record() {
  let found = entry(None, None, None, None);
  assert_eq!(ShopItem::from(found), Err(ScrapeError::IdentityResolution));
}

#[test]
fn a_missing_rating_is_empty_and_the_record_stays() {
  let found = entry(Some("Keyboard"), Some("/dp/K1"), None, Some("7"));
  assert_eq!(found.get_rating(), Err(ScrapeError::OptionalField));
  let item = ShopItem::from(found).unwrap();
  assert_eq!(item.rating(), "");
  assert_eq!(item.comments(), 7);
}

#[test]
fn a_missing_comment_count_is_zero_and_the_record_stays() {
  let found = entry(Some("Keyboard"), Some("/dp/K1"), Some("3.9 out of 5 stars"), None);
  assert_eq!(found.get_comments(), Err(ScrapeError::OptionalField));
  let item = ShopItem::from(found).unwrap();
  assert_eq!(item.rating(), "3.9");
  assert_eq!(item.comments(), 0);
}

#[test]
fn an_unreadable_comment_count_is_zero_and_the_record_stays() {
  let found = entry(Some("Keyboard"), Some("/dp/K1"), None, Some("abc"));
  assert_eq!(found.get_comments(), Err(ScrapeError::OptionalField));
  let item = ShopItem::from(found).unwrap();
  assert_eq!(item.title(), "Keyboard");
  assert_eq!(item.comments(), 0);
}

#[test]
fn comment_counts_are_read_with_their_separators() {
  assert_eq!(entry(None, None, None, Some("12,345")).get_comments(), Ok(12345));
  assert_eq!(entry(None, None, None, Some("8")).get_comments(), Ok(8));
  assert_eq!(entry(None, None, None, Some("4,294,967,295")).get_comments(), Ok(4294967295));
  assert_eq!(
    entry(None, None, None, Some("4,294,967,296")).get_comments(),
    Err(ScrapeError::OptionalField)
  );
  assert_eq!(entry(None, None, None, Some("")).get_comments(), Err(ScrapeError::OptionalField));
}

#[test]
fn ratings_are_cut_to_three_characters() {
  assert_eq!(entry(None, None, Some("4.5 out of 5 stars"), None).get_rating(), Ok("4.5".to_string()));
  assert_eq!(entry(None, None, Some("4.5"), None).get_rating(), Ok("4.5".to_string()));
  assert_eq!(entry(None, None, Some("5.0!"), None).get_rating(), Ok("5.0".to_string()));
}

#[test]
fn short_ratings_are_kept_whole() {
  assert_eq!(entry(None, None, Some("4."), None).get_rating(), Ok("4.".to_string()));
  assert_eq!(entry(None, None, Some("5"), None).get_rating(), Ok("5".to_string()));
  assert_eq!(entry(None, None, Some(""), None).get_rating(), Ok(String::new()));
}

#[test]
fn links_are_made_absolute() {
  assert_eq!(
    entry(None, Some("/dp/B000123"), None, None).get_link(),
    Ok("https://www.amazon.com/dp/B000123".to_string())
  );
  assert_eq!(
    entry(None, Some("/"), None, None).get_link(),
    Ok("https://www.amazon.com/".to_string())
  );
  assert_eq!(
    entry(None, Some("//images.example.com/a.png"), None, None).get_link(),
    Ok("https://www.amazon.com//images.example.com/a.png".to_string())
  );
  assert_eq!(entry(None, None, None, None).get_link(), Err(ScrapeError::IdentityResolution));
}

#[test]
fn absolute_links_are_kept_as_they_are() {
  assert_eq!(
    entry(None, Some("https://www.amazon.com/dp/B000123"), None, None).get_link(),
    Ok("https://www.amazon.com/dp/B000123".to_string())
  );
  assert_eq!(
    entry(None, Some("http://www.amazon.com/dp/B000123"), None, None).get_link(),
    Ok("http://www.amazon.com/dp/B000123".to_string())
  );
  assert_eq!(
    entry(None, Some("https://www.amazon.com"), None, None).get_link(),
    Ok("https://www.amazon.com".to_string())
  );
  assert_eq!(
    entry(None, Some("https://other.example.org/item?id=7"), None, None).get_link(),
    Ok("https://other.example.org/item?id=7".to_string())
  );
  let item = ShopItem::from(entry(
    Some("Keyboard"),
    Some("https://www.amazon.com/dp/K1"),
    Some("4.1 out of 5 stars"),
    Some("3"),
  ))
  .unwrap();
  assert_eq!(item.link(), "https://www.amazon.com/dp/K1");
  assert_eq!(item.title(), "Keyboard");
}

#[test]
fn an_href_of_no_known_kind_gives_no_link() {
  let hrefs: [&str; 9] = [
    "",
    "x",
    "dp/B000123",
    "www.amazon.com/dp/B000123",
    "ftp://www.amazon.com/dp/B000123",
    "HTTPS://www.amazon.com/dp/B000123",
    " /dp/B000123",
    "javascript:void(0)",
    "#reviews",
  ];
  for href in hrefs {
    assert_eq!(
      entry(None, Some(href), None, None).get_link(),
      Err(ScrapeError::IdentityResolution)
    );
    assert_eq!(
      ShopItem::from(entry(Some("Keyboard"), Some(href), None, None)),
      Err(ScrapeError::IdentityResolution)
    );
  }
}

#[test]
fn the_origin_is_never_followed_by_another_address() {
  let hrefs: [&str; 3] = [
    "https://www.amazon.comhttps://www.amazon.com/dp/B000123",
    "https://www.amazon.comhttp://other.example.org/",
    "https://www.amazon.comhttps://",
  ];
  for href in hrefs {
    assert_eq!(
      entry(None, Some(href), None, None).get_link(),
      Err(ScrapeError::IdentityResolution)
    );
  }
  assert_eq!(
    entry(None, Some("https://www.amazon.com.https://x"), None, None).get_link(),
    Ok("https://www.amazon.com.https://x".to_string())
  );
}

#[test]
fn absolute_addresses_are_told_from_others() {
  let chars = |text: &str| -> Vec<char> { text.chars().collect() };
  assert!(is_absolute_link(&chars("https://www.amazon.com/dp/B000123")));
  assert!(is_absolute_link(&chars("http://a")));
  assert!(is_absolute_link(&chars("https://")));
  assert!(!is_absolute_link(&chars("https:/")));
  assert!(!is_absolute_link(&chars("/dp/B000123")));
  assert!(!is_absolute_link(&chars("")));
  assert!(!is_absolute_link(&chars("https://www.amazon.comhttps://www.amazon.com/dp/B000123")));

  assert!(scheme_at(&chars("https://x"), 0));
  assert!(scheme_at(&chars("http://x"), 0));
  assert!(scheme_at(&chars("abhttp://x"), 2));
  assert!(!scheme_at(&chars("abhttp://x"), 1));
  assert!(!scheme_at(&chars("http://"), 1));
  assert!(!scheme_at(&chars("http://"), 7));
  assert!(!scheme_at(&chars("http://"), 8));
  assert!(!scheme_at(&chars("http://"), usize::MAX));
}

#[test]
fn titles_are_taken_as_they_are() {
  assert_eq!(
    entry(Some("  Mouse \u{2013} wireless  "), None, None, None).get_title(),
    Ok("  Mouse \u{2013} wireless  ".to_string())
  );
  assert_eq!(entry(None, Some("/dp/x"), None, None).get_title(), Err(ScrapeError::IdentityResolution));
}

#[test]
fn extraction_twice_gives_the_same_record() {
  let found = ShopItemComponent {
    title: text("Monitor"),
    href: text("/dp/M27"),
    rating: text("4.7 out of 5 stars"),
    comments: text("1,002"),
  };
  let first = ShopItem::from(found.clone());
  let second = ShopItem::from(found.clone());
  assert_eq!(first, second);
  assert_eq!(first.unwrap().comments(), 1002);

  assert_eq!(found.title, text("Monitor"));
  assert_eq!(found.href, text("/dp/M27"));
  assert_eq!(found.rating, text("4.7 out of 5 stars"));
  assert_eq!(found.comments, text("1,002"));
}

#[test]
fn extraction_twice_gives_the_same_error() {
  let found = entry(Some("Monitor"), None, None, None);
  assert_eq!(ShopItem::from(found.clone()), ShopItem::from(found));
}
